//! The angles of a fan of projectiles: an angular range centred on one
//! direction, walked in fixed steps from its lower end.

use vstd::prelude::*;

verus! {

/// The number of angles in a fan: one for the lower end of the range, and one
/// more for each whole step that fits between the two ends. The ends lie
/// half of `range`, rounded down, to either side of the centre.
pub open spec fn fan_count(range: u32, step: u32) -> int
    recommends
        0 < step,
{
    (2 * (range / 2)) / (step as int) + 1
}

/// The `k`-th angle of a fan, counted from 0 at the lower end of the range.
pub open spec fn fan_angle(center: i32, range: u32, step: u32, k: int) -> int {
    center - range / 2 + k * step
}

/// The angles of a fan, in rising order.
pub open spec fn fan_angles(center: i32, range: u32, step: u32) -> Seq<i32>
    recommends
        0 < step,
{
    Seq::new(fan_count(range, step) as nat, |k: int| fan_angle(center, range, step, k) as i32)
}

/// Every angle of a fan lies between the two ends of the range.
pub proof fn lemma_fan_within_range(center: i32, range: u32, step: u32, k: int)
    requires
        0 < step,
        0 <= k < fan_count(range, step),
    ensures
        center - range / 2 <= fan_angle(center, range, step, k) <= center + range / 2,
{
    let span: int = 2 * (range / 2);
    let s: int = step as int;
    assert(0 <= k * s <= span) by (nonlinear_arith)
        requires
            0 < s,
            0 <= span,
            0 <= k <= span / s,
    ;
}

/// The angles of the fan of `range` degrees about `center`, one every `step`
/// degrees from the lower end of the range up to its upper end, which is
/// among them where the steps reach it exactly.
pub fn spread_angles(center: i32, range: u32, step: u32) -> (angles: Vec<i32>)
    requires
        0 < step,
        i32::MIN <= center - range / 2,
        center + range / 2 <= i32::MAX,
    ensures
        angles@ == fan_angles(center, range, step),
{
    let half: i64 = (range / 2) as i64;
    let start: i64 = center as i64 - half;
    let end: i64 = center as i64 + half;
    let stride: i64 = step as i64;

    let mut angles: Vec<i32> = Vec::new();
    let mut angle: i64 = start;
    while angle <= end
        invariant
            0 < stride == step,
            half == range / 2,
            start == center - half,
            end == center + half,
            i32::MIN <= start <= end <= i32::MAX,
            angle == start + angles@.len() * stride,
            angle <= end + stride,
            forall|k: int|
                0 <= k < angles@.len() ==> #[trigger] angles@[k] == fan_angle(
                    center,
                    range,
                    step,
                    k,
                ),
        decreases end + stride - angle,
    {
        let ghost n: int = angles@.len() as int;
        assert((n + 1) * stride == n * stride + stride) by (nonlinear_arith);
        assert(0 <= n * stride) by (nonlinear_arith)
            requires
                0 <= n,
                0 < stride,
        ;
        angles.push(angle as i32);
        angle = angle + stride;
    }
    proof {
        let n: int = angles@.len() as int;
        let span: int = end - start;
        let s: int = stride as int;
        assert(span == 2 * (range / 2));
        assert(n >= 1) by {
            if n == 0 {
                assert(0 * s == 0);
            }
        }
        assert((n - 1) * s == n * s - s) by (nonlinear_arith);
        assert(span / s == n - 1) by (nonlinear_arith)
            requires
                0 < s,
                (n - 1) * s <= span < (n - 1) * s + s,
        ;
        assert(angles@ =~= fan_angles(center, range, step));
    }
    angles
}

/// With a range that is even, or that the step does not divide, the fan has
/// one angle more than the whole number of steps in the range.
pub proof fn lemma_fan_count(range: u32, step: u32)
    requires
        0 < step,
        range % 2 == 0 || range % step != 0,
    ensures
        fan_count(range, step) == range / step + 1,
{
    let r: int = range as int;
    let s: int = step as int;
    if r % 2 != 0 {
        assert(2 * (r / 2) == r - 1);
        assert((r - 1) / s == r / s) by (nonlinear_arith)
            requires
                0 < s,
                0 < r,
                r % s != 0,
        ;
    }
}

/// Where the step divides the range, and the range is even or the step is 1,
/// the fan is symmetric about its centre: the `k`-th angle from the lower end
/// and the `k`-th from the upper end lie equally far from the centre, on
/// opposite sides.
pub proof fn lemma_fan_symmetric(center: i32, range: u32, step: u32, k: int)
    requires
        0 < step,
        range % step == 0,
        range % 2 == 0 || step == 1,
        0 <= k < fan_count(range, step),
    ensures
        fan_angle(center, range, step, k) - center == center - fan_angle(
            center,
            range,
            step,
            fan_count(range, step) - 1 - k,
        ),
{
    let span: int = 2 * (range / 2);
    let s: int = step as int;
    let last: int = fan_count(range, step) - 1;
    assert(last * s == span) by (nonlinear_arith)
        requires
            0 < s,
            0 <= span,
            last == span / s,
            span % s == 0,
    ;
    assert(k * s + (last - k) * s == last * s) by (nonlinear_arith);
}

} // verus!
