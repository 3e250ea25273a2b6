//! The filter record and its per-sample update.
use vstd::prelude::*;

use vstd::std_specs::cmp::{PartialOrdIs, PartialOrdSpec};

use crate::sample::Sample;

verus! {

/// Relies on num_traits::clamp: `min` when `input < min`, else `max` when
/// `input > max`, else `input`. It asserts `min <= max` in debug builds.
pub assume_specification<T: PartialOrd>[ num_traits::clamp::<T> ](input: T, min: T, max: T) -> (r:
    T)
    requires
        T::obeys_partial_cmp_spec(),
        min.is_le(&max),
    ensures
        r == clamp_spec(input, min, max),
;

/// The number of slots of the coefficient vector and of the history buffer:
/// seven feed-forward taps and six feed-back taps.
pub const LEN: usize = 13;

/// The slot of the history buffer that holds the most recent output.
pub const OUT: usize = 6;

/// `x` limited to `[lo, hi]`: `lo` below it, `hi` above it.
pub open spec fn clamp_spec<T: PartialOrd>(x: T, lo: T, hi: T) -> T {
    if x.is_lt(&lo) {
        lo
    } else if x.is_gt(&hi) {
        hi
    } else {
        x
    }
}

/// The sum of `x[i] * a[i]` over the first `n` slots, added up from zero in
/// slot order.
pub open spec fn dot<T: Sample>(x: Seq<T>, a: Seq<T>, n: nat) -> T
    decreases n,
{
    if n == 0 {
        T::zero_spec()
    } else {
        T::add_spec(dot(x, a, (n - 1) as nat), T::mul_spec(x[n - 1], a[n - 1]))
    }
}

/// `offset` plus the sum of the products of `x` and `a`, slot by slot.
pub open spec fn macc_spec<T: Sample>(offset: T, x: Seq<T>, a: Seq<T>) -> T {
    T::add_spec(offset, dot(x, a, x.len()))
}

/// The multiply-accumulate: `offset` plus the sum of `x[i] * a[i]`.
pub fn macc<T: Sample>(offset: T, x: &[T; 13], a: &[T; 13]) -> (r: T)
    ensures
        r == macc_spec(offset, x@, a@),
{
    let mut acc = T::zero();
    let mut i: usize = 0;
    while i < LEN
        invariant
            i <= LEN,
            x@.len() == LEN,
            a@.len() == LEN,
            acc == dot(x@, a@, i as nat),
        decreases LEN - i,
    {
        acc = acc.add(x[i].mul(a[i]));
        i = i + 1;
    }
    offset.add(acc)
}

/// Thirteen samples: the coefficient vector of a filter, or its history.
pub type Vec13<T> = [T; 13];

/// A filter's coefficients and output limits.
///
/// `ba` holds the feed-forward taps `b0..b6` followed by the negated
/// feed-back taps `-a1..-a6`, normalised so that `a0 = 1`. `y_offset` is
/// added to every computed output, which is then limited to
/// `[y_min, y_max]`.
///
/// The history a filter works on is a [`Vec13`] owned by the caller. Lower
/// slots hold more recent samples: before an update the six most recent
/// inputs stand in slots `0..6` and the seven most recent outputs in slots
/// `6..13`, the latest output in slot [`OUT`]. The update shifts every slot
/// one older and puts the new input in slot 0, so that the seven inputs face
/// `b0..b6` and the six older outputs face `-a1..-a6`; the new output then
/// takes slot [`OUT`].
#[derive(Copy, Clone, Debug)]
pub struct IIR6<T> {
    pub ba: Vec13<T>,
    pub y_offset: T,
    pub y_min: T,
    pub y_max: T,
}

/// The all-zero record: zero taps, offset and limits.
impl<T: Sample> Default for IIR6<T> {
    fn default() -> (r: Self)
        ensures
            forall|i: int| 0 <= i < LEN ==> #[trigger] r.ba@[i] == T::zero_spec(),
            r.y_offset == T::zero_spec(),
            r.y_min == T::zero_spec(),
            r.y_max == T::zero_spec(),
    {
        let z = T::zero();
        IIR6 { ba: [z; 13], y_offset: z, y_min: z, y_max: z }
    }
}

/// The history one step later: `x0` in front, the oldest sample dropped.
pub open spec fn advance<T>(xy: Seq<T>, x0: T) -> Seq<T> {
    seq![x0] + xy.subrange(0, LEN - 1)
}

impl<T: Sample> IIR6<T> {
    /// The limits are ordered, `y_min <= y_max`, by comparisons that follow
    /// their specification.
    pub open spec fn limits_ordered(&self) -> bool {
        &&& T::obeys_partial_cmp_spec()
        &&& self.y_min.is_le(&self.y_max)
    }

    /// The output before limiting: the previous output when held, else the
    /// offset plus the taps applied to the advanced history.
    pub open spec fn raw_output(&self, xy: Seq<T>, x0: T, hold: bool) -> T {
        if hold {
            xy[OUT as int]
        } else {
            macc_spec(self.y_offset, advance(xy, x0), self.ba@)
        }
    }

    /// The output of one update on history `xy` with input `x0`.
    pub open spec fn output(&self, xy: Seq<T>, x0: T, hold: bool) -> T {
        clamp_spec(self.raw_output(xy, x0, hold), self.y_min, self.y_max)
    }

    /// The history after one update on `xy` with input `x0`.
    pub open spec fn next_history(&self, xy: Seq<T>, x0: T, hold: bool) -> Seq<T> {
        advance(xy, x0).update(OUT as int, self.output(xy, x0, hold))
    }

    /// A record with all taps and the offset zero, and the given limits.
    pub fn new(y_min: T, y_max: T) -> (r: Self)
        ensures
            forall|i: int| 0 <= i < LEN ==> #[trigger] r.ba@[i] == T::zero_spec(),
            r.y_offset == T::zero_spec(),
            r.y_min == y_min,
            r.y_max == y_max,
    {
        let z = T::zero();
        IIR6 { ba: [z; 13], y_offset: z, y_min, y_max }
    }

    /// Feeds the input `x0` into the history `xy` and returns the new output.
    ///
    /// Every slot of `xy` moves one older and `x0` takes slot 0. Unless
    /// `hold` is set, the raw output is `y_offset` plus the taps applied to
    /// the history; with `hold` it is the previous output. The raw output is
    /// limited to `[y_min, y_max]`, stored in slot [`OUT`] and returned.
    /// The history still moves on when `hold` is set. A raw output that
    /// compares with neither limit (a floating-point NaN) passes unlimited.
    pub fn update(&self, xy: &mut Vec13<T>, x0: T, hold: bool) -> (y0: T)
        requires
            self.limits_ordered(),
        ensures
            y0 == self.output(old(xy)@, x0, hold),
            final(xy)@ == self.next_history(old(xy)@, x0, hold),
    {
        let ghost before = xy@;
        let mut i: usize = LEN - 1;
        while i > 0
            invariant
                i < LEN,
                xy@.len() == LEN,
                before.len() == LEN,
                forall|j: int| 0 <= j <= i ==> xy@[j] == before[j],
                forall|j: int| i < j < LEN ==> xy@[j] == before[j - 1],
            decreases i,
        {
            xy[i] = xy[i - 1];
            i = i - 1;
        }
        xy[0] = x0;
        assert(xy@ =~= advance(before, x0));
        let y0 = if hold {
            xy[OUT + 1]
        } else {
            macc(self.y_offset, xy, &self.ba)
        };
        let y0 = num_traits::clamp(y0, self.y_min, self.y_max);
        xy[OUT] = y0;
        y0
    }
}

} // verus!
