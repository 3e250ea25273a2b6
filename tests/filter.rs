use iir6::iir::{macc, LEN, OUT};
use iir6::{Sample, Vec13, IIR6};

fn taps(pairs: &[(usize, i64)]) -> Vec13<i64> {
    let mut ba = [0i64; 13];
    for &(i, v) in pairs {
        ba[i] = v;
    }
    ba
}

fn filter(ba: Vec13<i64>, y_offset: i64, y_min: i64, y_max: i64) -> IIR6<i64> {
    let mut f = IIR6::new(y_min, y_max);
    f.ba = ba;
    f.y_offset = y_offset;
    f
}

#[test]
fn new_is_zero_with_given_limits() {
    let f: IIR6<i64> = IIR6::new(-3, 4);
    assert_eq!(f.ba, [0; 13]);
    assert_eq!(f.y_offset, 0);
    assert_eq!(f.y_min, -3);
    assert_eq!(f.y_max, 4);
}

#[test]
fn default_is_all_zero() {
    let f: IIR6<i64> = IIR6::default();
    assert_eq!(f.ba, [0; 13]);
    assert_eq!((f.y_offset, f.y_min, f.y_max), (0, 0, 0));
}

#[test]
fn pass_through_returns_input() {
    let f = filter(taps(&[(0, 1)]), 0, i64::MIN, i64::MAX);
    let mut xy = [0i64; 13];
    for &x in &[5i64, -7, 0, i64::MAX, i64::MIN, 42] {
        assert_eq!(f.update(&mut xy, x, false), x);
        assert_eq!(xy[0], x);
        assert_eq!(xy[OUT], x);
    }
}

#[test]
fn saturates_at_upper_limit() {
    let f = filter(taps(&[(0, 1)]), 0, -10, 10);
    let mut xy = [0i64; 13];
    assert_eq!(f.update(&mut xy, 100, false), 10);
    assert_eq!(xy[OUT], 10);
    assert_eq!(xy[0], 100);
}

#[test]
fn saturates_at_lower_limit() {
    let f = filter(taps(&[(0, 1)]), 0, -10, 10);
    let mut xy = [0i64; 13];
    assert_eq!(f.update(&mut xy, -100, false), -10);
    assert_eq!(xy[OUT], -10);
}

#[test]
fn zero_taps_give_limited_offset() {
    let f = filter([0; 13], 20, -10, 10);
    let mut xy = [0i64; 13];
    for &x in &[1i64, -1000, 77, 0] {
        assert_eq!(f.update(&mut xy, x, false), 10);
    }
    let g = filter([0; 13], 3, -10, 10);
    let mut xy = [9i64; 13];
    for &x in &[1i64, -1000, 77] {
        assert_eq!(g.update(&mut xy, x, false), 3);
    }
    assert_eq!(g.update(&mut xy, 5, true), 3);
}

#[test]
fn history_shifts_one_slot() {
    let f = filter([0; 13], 0, -100, 100);
    let mut xy: Vec13<i64> = [1, 2, 3, 4, 5, 6, 7, 8, 9, 10, 11, 12, 13];
    let y = f.update(&mut xy, 99, false);
    assert_eq!(y, 0);
    assert_eq!(xy, [99, 1, 2, 3, 4, 5, 0, 7, 8, 9, 10, 11, 12]);
}

#[test]
fn output_is_offset_plus_weighted_history() {
    // b0 = 2, b1 = 3, -a1 = 5: y = 1 + 2*x0 + 3*x1 + 5*y1
    let f = filter(taps(&[(0, 2), (1, 3), (7, 5)]), 1, -1000, 1000);
    let mut xy: Vec13<i64> = [4, 0, 0, 0, 0, 0, 6, 0, 0, 0, 0, 0, 0];
    let y = f.update(&mut xy, 10, false);
    assert_eq!(y, 1 + 2 * 10 + 3 * 4 + 5 * 6);
    assert_eq!(xy[OUT], y);
    assert_eq!(xy[OUT + 1], 6);
}

#[test]
fn hold_repeats_previous_output() {
    let f = filter(taps(&[(0, 1)]), 0, -100, 100);
    let mut xy = [0i64; 13];
    assert_eq!(f.update(&mut xy, 17, false), 17);
    assert_eq!(f.update(&mut xy, 50, true), 17);
    assert_eq!(xy[0], 50);
    assert_eq!(xy[1], 17);
    assert_eq!(f.update(&mut xy, -3, true), 17);
    assert_eq!(xy[0], -3);
    assert_eq!(f.update(&mut xy, 8, false), 8);
}

#[test]
fn integrator_recovers_without_windup() {
    // y = x0 + y1: an integrator limited to [-100, 100]
    let f = filter(taps(&[(0, 1), (7, 1)]), 0, -100, 100);
    let mut xy = [0i64; 13];
    let mut outputs = Vec::new();
    for _ in 0..10 {
        outputs.push(f.update(&mut xy, 50, false));
    }
    assert_eq!(outputs, vec![50, 100, 100, 100, 100, 100, 100, 100, 100, 100]);
    // The history holds the limited output only, so the first negative
    // input already pulls the output down.
    assert_eq!(f.update(&mut xy, -10, false), 90);
    assert_eq!(f.update(&mut xy, -10, false), 80);

    // A run that reached 100 without saturating behaves the same.
    let mut free = [0i64; 13];
    assert_eq!(f.update(&mut free, 100, false), 100);
    assert_eq!(f.update(&mut free, -10, false), 90);
    assert_eq!(f.update(&mut free, -10, false), 80);
}

#[test]
fn swapping_records_keeps_history() {
    let a = filter(taps(&[(0, 1)]), 0, -100, 100);
    let mut xy = [0i64; 13];
    for _ in 0..6 {
        assert_eq!(a.update(&mut xy, 5, false), 5);
    }
    let kept = xy;
    // b holds its output: y = y1, the same steady state as a.
    let b = filter(taps(&[(7, 1)]), 0, -100, 100);
    assert_eq!(b.update(&mut xy, 5, false), 5);
    assert_eq!(xy[1..OUT], kept[0..OUT - 1]);
    assert_eq!(xy[OUT + 1..], kept[OUT..LEN - 1]);
}

#[test]
fn macc_adds_offset_and_products() {
    let x: Vec13<i64> = [1, 2, 3, 4, 5, 6, 7, 8, 9, 10, 11, 12, 13];
    assert_eq!(macc(1, &x, &x), 1 + 819);
    assert_eq!(macc(-4, &x, &[0; 13]), -4);
}

#[test]
fn integer_samples_saturate() {
    assert_eq!(<i64 as Sample>::zero(), 0);
    assert_eq!(3i64.mul(4), 12);
    assert_eq!(3i64.add(-4), -1);
    assert_eq!(i64::MAX.add(1), i64::MAX);
    assert_eq!(i64::MIN.add(-1), i64::MIN);
    assert_eq!(i64::MIN.mul(2), i64::MIN);
    assert_eq!(i64::MAX.mul(-2), i64::MIN);
}
