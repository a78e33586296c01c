use vstd::prelude::*;

verus! {

/// Relies on rand::random: a value drawn from the thread-local generator.
/// Nothing is promised of which value.
pub assume_specification<T>[ rand::random::<T> ]() -> (r: T)
    where
        rand::distributions::Standard: rand::distributions::Distribution<T>,
;

/// Scales a 16-bit draw into `[0, n)`.
pub open spec fn below_from(draw: int, n: int) -> int {
    draw * n / 65536
}

/// Maps a 16-bit draw `draw` into `[0, n)`.
pub fn below_from_draw(draw: u16, n: i64) -> (r: i64)
    requires
        0 < n <= 1_000_000_000,
    ensures
        r == below_from(draw as int, n as int),
        0 <= r < n,
{
    assert(0 <= draw * n < 65536 * n) by (nonlinear_arith)
        requires
            0 <= draw < 65536,
            n > 0,
    ;
    let r = (draw as i64) * n / 65536;
    assert(r < n) by (nonlinear_arith)
        requires
            r == (draw * n) / 65536,
            draw * n < 65536 * n,
            n > 0,
    ;
    r
}

/// A number drawn in `[0, n)`.
pub fn draw_below(n: i64) -> (r: i64)
    requires
        0 < n <= 1_000_000_000,
    ensures
        0 <= r < n,
{
    let draw: u16 = rand::random::<u16>();
    below_from_draw(draw, n)
}

} // verus!
