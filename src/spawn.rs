use vstd::prelude::*;
use rand::Rng;
use crate::motion::MAX_EXTENT;

verus! {

/// Where a recycled obstacle may reappear: right of the window by up to half
/// its width, at any height inside it.
pub open spec fn in_spawn_zone(x: int, y: int, width: int, height: int) -> bool {
    &&& width <= x
    &&& 2 * x < 3 * width
    &&& -height <= 2 * y
    &&& 2 * y < height
}

/// Relies on rand's `thread_rng().gen_range(lo..hi)`: a value of the
/// half-open range, which must not be empty.
#[verifier::external_body]
fn random_between(lo: i64, hi: i64) -> (r: i64)
    requires
        lo < hi,
    ensures
        lo <= r < hi,
{
    rand::thread_rng().gen_range(lo..hi)
}

/// A random point of the spawn zone of a window of the given size.
pub fn spawn_point(width: i64, height: i64) -> (r: (i64, i64))
    requires
        2 <= width <= MAX_EXTENT,
        2 <= height <= MAX_EXTENT,
    ensures
        in_spawn_zone(r.0 as int, r.1 as int, width as int, height as int),
{
    let x = random_between(width, width + (width + 1) / 2);
    let y = random_between(-(height / 2), (height + 1) / 2);
    (x, y)
}

} // verus!
