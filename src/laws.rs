//! Properties of the filter that span inputs, calls or records.
use vstd::prelude::*;

use crate::iir::{advance, clamp_spec, dot, macc_spec, IIR6, LEN, OUT};
use crate::sample::Sample;

verus! {

/// With every tap zero, the products with any history add up to zero.
proof fn lemma_dot_zero_taps(x: Seq<i64>, a: Seq<i64>, n: nat)
    requires
        n <= a.len(),
        forall|i: int| 0 <= i < n ==> a[i] == 0,
    ensures
        dot(x, a, n) == 0,
    decreases n,
{
    if n > 0 {
        lemma_dot_zero_taps(x, a, (n - 1) as nat);
    }
}

/// With a unit first tap and every other tap zero, the products add up to
/// the first sample.
proof fn lemma_dot_unit_tap(x: Seq<i64>, a: Seq<i64>, n: nat)
    requires
        1 <= n <= a.len(),
        a[0] == 1,
        forall|i: int| 1 <= i < n ==> a[i] == 0,
    ensures
        dot(x, a, n) == x[0],
    decreases n,
{
    if n > 1 {
        lemma_dot_unit_tap(x, a, (n - 1) as nat);
    } else {
        assert(dot(x, a, 0) == 0);
    }
}

/// Saturation: a raw output above `y_max` comes out as `y_max`, one below
/// `y_min` as `y_min`, and the stored output is that limited value.
pub proof fn lemma_saturation(f: IIR6<i64>, xy: Seq<i64>, x0: i64, hold: bool)
    requires
        f.y_min <= f.y_max,
        xy.len() == LEN,
    ensures
        f.raw_output(xy, x0, hold) > f.y_max ==> f.output(xy, x0, hold) == f.y_max,
        f.raw_output(xy, x0, hold) < f.y_min ==> f.output(xy, x0, hold) == f.y_min,
        f.next_history(xy, x0, hold)[OUT as int] == f.output(xy, x0, hold),
{
}

/// With every tap zero the filter puts out its offset, limited to
/// `[y_min, y_max]`, whatever the history and input; a held update repeats a
/// previous such output.
pub proof fn lemma_zero_taps_inert(f: IIR6<i64>, xy: Seq<i64>, x0: i64, hold: bool)
    requires
        f.y_min <= f.y_max,
        xy.len() == LEN,
        forall|i: int| 0 <= i < LEN ==> #[trigger] f.ba@[i] == 0,
        hold ==> xy[OUT as int] == clamp_spec(f.y_offset, f.y_min, f.y_max),
    ensures
        f.output(xy, x0, hold) == clamp_spec(f.y_offset, f.y_min, f.y_max),
{
    lemma_dot_zero_taps(advance(xy, x0), f.ba@, LEN as nat);
}

/// With `b0 = 1`, every other tap zero, no offset and the full range of
/// `i64` as limits, the output is the input.
pub proof fn lemma_pass_through(f: IIR6<i64>, xy: Seq<i64>, x0: i64)
    requires
        xy.len() == LEN,
        f.ba@[0] == 1,
        forall|i: int| 1 <= i < LEN ==> #[trigger] f.ba@[i] == 0,
        f.y_offset == 0,
        f.y_min == i64::MIN,
        f.y_max == i64::MAX,
    ensures
        f.output(xy, x0, false) == x0,
{
    lemma_dot_unit_tap(advance(xy, x0), f.ba@, LEN as nat);
}

/// No windup: the history keeps only the output that was put out, which
/// lies within `[y_min, y_max]`; apart from that slot it is the input
/// history advanced, whatever the raw output was.
pub proof fn lemma_no_windup(f: IIR6<i64>, xy: Seq<i64>, x0: i64, hold: bool)
    requires
        f.y_min <= f.y_max,
        xy.len() == LEN,
    ensures
        f.y_min <= f.output(xy, x0, hold) <= f.y_max,
        f.next_history(xy, x0, hold) == advance(xy, x0).update(
            OUT as int,
            f.output(xy, x0, hold),
        ),
{
}

/// Bump-less transfer: the history after an update does not depend on the
/// record but through the output just put out, so a record put in place of
/// another applies its own taps to the same history, which nothing resets.
pub proof fn lemma_bumpless<T: Sample>(
    a: IIR6<T>,
    b: IIR6<T>,
    xy: Seq<T>,
    x1: T,
    hold: bool,
    x2: T,
)
    requires
        xy.len() == LEN,
    ensures
        forall|i: int|
            0 <= i < LEN && i != OUT ==> #[trigger] a.next_history(xy, x1, hold)[i]
                == b.next_history(xy, x1, hold)[i],
        b.output(a.next_history(xy, x1, hold), x2, false) == clamp_spec(
            macc_spec(b.y_offset, advance(a.next_history(xy, x1, hold), x2), b.ba@),
            b.y_min,
            b.y_max,
        ),
{
}

/// Hold: a held update puts out the previous output unchanged, whatever
/// the new input, and still records that input in the history.
pub proof fn lemma_hold(f: IIR6<i64>, xy: Seq<i64>, x1: i64, hold1: bool, x2: i64)
    requires
        f.y_min <= f.y_max,
        xy.len() == LEN,
    ensures
        f.output(f.next_history(xy, x1, hold1), x2, true) == f.output(xy, x1, hold1),
        f.next_history(f.next_history(xy, x1, hold1), x2, true)[0] == x2,
        f.next_history(f.next_history(xy, x1, hold1), x2, true)[1] == x1,
{
}

} // verus!
