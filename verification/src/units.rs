//! Arithmetic on world coordinates.
//!
//! A coordinate is an `i64` count of world units. Sums and products that
//! leave the range of `i64` stop at its ends.

use vstd::prelude::*;

verus! {

/// World units in one pixel.
pub const PIXEL: i64 = 1_000_000_000;

/// The coordinate nearest to `v`.
pub open spec fn clamp_coord(v: int) -> int {
    if v < i64::MIN {
        i64::MIN as int
    } else if v > i64::MAX {
        i64::MAX as int
    } else {
        v
    }
}

/// The greatest whole pixel that is not above `v`, in world units.
pub open spec fn pixel_floor(v: int) -> int {
    clamp_coord((v / (PIXEL as int)) * (PIXEL as int))
}

/// Half of `v`, rounded down.
pub open spec fn half(v: int) -> int {
    v / 2
}

/// Distance covered at `speed` pixels per second in `delta_nanos`
/// nanoseconds, in world units.
pub open spec fn travel(speed: int, delta_nanos: int) -> int {
    clamp_coord(speed * delta_nanos)
}

proof fn lemma_product_bound(a: int, b: int, bound_a: int, bound_b: int)
    by (nonlinear_arith)
    requires
        0 <= a <= bound_a,
        0 <= b <= bound_b,
    ensures
        0 <= a * b <= bound_a * bound_b,
{
}

proof fn lemma_steps_fit(count: u32, step: i64)
    ensures
        -0x8000_0000_0000_0000_0000_0000 <= count * step <= 0x8000_0000_0000_0000_0000_0000,
{
    if step >= 0 {
        lemma_product_bound(count as int, step as int, u32::MAX as int, i64::MAX as int);
    } else {
        lemma_product_bound(count as int, -(step as int), u32::MAX as int, -(i64::MIN as int));
        assert(count * step == -(count * (-(step as int)))) by (nonlinear_arith);
    }
}

fn narrow(wide: i128) -> (r: i64)
    ensures
        r == clamp_coord(wide as int),
{
    if wide < i64::MIN as i128 {
        i64::MIN
    } else if wide > i64::MAX as i128 {
        i64::MAX
    } else {
        wide as i64
    }
}

/// The sum of two coordinates.
pub fn coord_add(a: i64, b: i64) -> (r: i64)
    ensures
        r == clamp_coord(a + b),
{
    narrow(a as i128 + b as i128)
}

/// The difference of two coordinates.
pub fn coord_sub(a: i64, b: i64) -> (r: i64)
    ensures
        r == clamp_coord(a - b),
{
    narrow(a as i128 - b as i128)
}

/// The coordinate opposite to `a`.
pub fn coord_neg(a: i64) -> (r: i64)
    ensures
        r == clamp_coord(-a),
{
    narrow(0i128 - a as i128)
}

/// `count` steps of `step` world units each.
pub fn coord_times(count: u32, step: i64) -> (r: i64)
    ensures
        r == clamp_coord(count * step),
{
    proof {
        lemma_steps_fit(count, step);
    }
    narrow(count as i128 * step as i128)
}

/// `base` moved by `count` steps of `step` world units each.
pub fn coord_affine(base: i64, count: u32, step: i64) -> (r: i64)
    ensures
        r == clamp_coord(base + count * step),
{
    proof {
        lemma_steps_fit(count, step);
    }
    narrow(base as i128 + count as i128 * step as i128)
}

/// `base` lowered by `count` steps of `step` world units each.
pub fn coord_affine_down(base: i64, count: u32, step: i64) -> (r: i64)
    ensures
        r == clamp_coord(base - count * step),
{
    proof {
        lemma_steps_fit(count, step);
    }
    narrow(base as i128 - count as i128 * step as i128)
}

fn wide_half(v: i128) -> (r: i128)
    requires
        -0x4000_0000_0000_0000_0000_0000_0000_0000 <= v <= 0x4000_0000_0000_0000_0000_0000_0000_0000,
    ensures
        r == half(v as int),
{
    if v >= 0 {
        v / 2
    } else {
        let below: i128 = -(v + 1);
        -(below / 2) - 1
    }
}

/// Half of `v`, rounded down.
pub fn coord_half(v: i64) -> (r: i64)
    ensures
        r == half(v as int),
{
    wide_half(v as i128) as i64
}

/// Half of what `v` is below zero, rounded down.
pub fn coord_half_neg(v: i64) -> (r: i64)
    ensures
        r == half(-(v as int)),
{
    wide_half(-(v as i128)) as i64
}

/// Where the first column of `width` tiles stands when the row is centred
/// on zero: half the row to the left, then half a tile back, which is half
/// of what a tile is more than the row.
pub open spec fn centred_start(width: int, tile_size: int) -> int {
    clamp_coord(half(tile_size - width * tile_size))
}

/// Where the first column of a centred row of `width` tiles stands.
pub fn centred_offset(width: u32, tile_size: i64) -> (r: i64)
    ensures
        r == centred_start(width as int, tile_size as int),
{
    proof {
        lemma_steps_fit(width, tile_size);
    }
    let row: i128 = width as i128 * tile_size as i128;
    narrow(wide_half(tile_size as i128 - row))
}

/// `v` moved down to the whole pixel.
pub fn snap_to_pixel(v: i64) -> (r: i64)
    ensures
        r == pixel_floor(v as int),
{
    if v >= 0 {
        (v / PIXEL) * PIXEL
    } else {
        let below: i64 = -(v + 1);
        let whole: i128 = -((below / PIXEL) as i128) - 1;
        assert(-0x8000_0000_0000_0000 <= whole <= -1);
        assert(whole == v as int / (PIXEL as int));
        narrow(whole * 1_000_000_000)
    }
}

/// Distance covered at `speed` pixels per second in `delta_nanos`
/// nanoseconds, in world units.
pub fn distance(speed: u32, delta_nanos: u64) -> (d: i64)
    ensures
        d == travel(speed as int, delta_nanos as int),
        d >= 0,
{
    proof {
        lemma_product_bound(speed as int, delta_nanos as int, u32::MAX as int, u64::MAX as int);
    }
    let wide: u128 = speed as u128 * delta_nanos as u128;
    if wide > i64::MAX as u128 {
        i64::MAX
    } else {
        wide as i64
    }
}

/// The greatest of `start` and the members of `ys`.
pub open spec fn highest_from(start: int, ys: Seq<i64>) -> int
    decreases ys.len(),
{
    if ys.len() == 0 {
        start
    } else {
        let rest = highest_from(start, ys.drop_last());
        if ys.last() > rest {
            ys.last() as int
        } else {
            rest
        }
    }
}

/// The least of `start` and the members of `ys`.
pub open spec fn lowest_from(start: int, ys: Seq<i64>) -> int
    decreases ys.len(),
{
    if ys.len() == 0 {
        start
    } else {
        let rest = lowest_from(start, ys.drop_last());
        if ys.last() < rest {
            ys.last() as int
        } else {
            rest
        }
    }
}

/// `highest_from` is an upper bound of `start` and of every member, and is
/// one of them.
pub proof fn lemma_highest_from(start: int, ys: Seq<i64>)
    ensures
        highest_from(start, ys) >= start,
        forall|i: int| 0 <= i < ys.len() ==> highest_from(start, ys) >= ys[i],
        highest_from(start, ys) == start || exists|i: int|
            0 <= i < ys.len() && highest_from(start, ys) == ys[i],
    decreases ys.len(),
{
    if ys.len() > 0 {
        let front = ys.drop_last();
        lemma_highest_from(start, front);
        let rest = highest_from(start, front);
        assert forall|i: int| 0 <= i < ys.len() implies highest_from(start, ys) >= ys[i] by {
            if i < front.len() {
                assert(front[i] == ys[i]);
            }
        }
        if ys.last() > rest {
            assert(highest_from(start, ys) == ys[ys.len() - 1]);
        } else if rest != start {
            let i = choose|i: int| 0 <= i < front.len() && rest == front[i];
            assert(front[i] == ys[i]);
        }
    }
}

/// `lowest_from` is a lower bound of `start` and of every member, and is
/// one of them.
pub proof fn lemma_lowest_from(start: int, ys: Seq<i64>)
    ensures
        lowest_from(start, ys) <= start,
        forall|i: int| 0 <= i < ys.len() ==> lowest_from(start, ys) <= ys[i],
        lowest_from(start, ys) == start || exists|i: int|
            0 <= i < ys.len() && lowest_from(start, ys) == ys[i],
    decreases ys.len(),
{
    if ys.len() > 0 {
        let front = ys.drop_last();
        lemma_lowest_from(start, front);
        let rest = lowest_from(start, front);
        assert forall|i: int| 0 <= i < ys.len() implies lowest_from(start, ys) <= ys[i] by {
            if i < front.len() {
                assert(front[i] == ys[i]);
            }
        }
        if ys.last() < rest {
            assert(lowest_from(start, ys) == ys[ys.len() - 1]);
        } else if rest != start {
            let i = choose|i: int| 0 <= i < front.len() && rest == front[i];
            assert(front[i] == ys[i]);
        }
    }
}

/// The greatest of `start` and the members of `ys`.
pub fn highest_of(start: i64, ys: &Vec<i64>) -> (top: i64)
    ensures
        top == highest_from(start as int, ys@),
{
    let mut top: i64 = start;
    let mut i: usize = 0;
    while i < ys.len()
        invariant
            i <= ys.len(),
            top == highest_from(start as int, ys@.take(i as int)),
        decreases ys.len() - i,
    {
        assert(ys@.take(i + 1).drop_last() =~= ys@.take(i as int));
        if ys[i] > top {
            top = ys[i];
        }
        i = i + 1;
    }
    assert(ys@.take(ys.len() as int) =~= ys@);
    top
}

/// The least of `start` and the members of `ys`.
pub fn lowest_of(start: i64, ys: &Vec<i64>) -> (bottom: i64)
    ensures
        bottom == lowest_from(start as int, ys@),
{
    let mut bottom: i64 = start;
    let mut i: usize = 0;
    while i < ys.len()
        invariant
            i <= ys.len(),
            bottom == lowest_from(start as int, ys@.take(i as int)),
        decreases ys.len() - i,
    {
        assert(ys@.take(i + 1).drop_last() =~= ys@.take(i as int));
        if ys[i] < bottom {
            bottom = ys[i];
        }
        i = i + 1;
    }
    assert(ys@.take(ys.len() as int) =~= ys@);
    bottom
}

/// How many heights `first`, `first + step`, `first + 2 * step`, ... are
/// below `limit`.
pub open spec fn row_count(first: int, step: int, limit: int) -> int {
    if first < limit {
        (limit - first - 1) / step + 1
    } else {
        0
    }
}

/// The heights from `first` upwards, `step` apart, that are below `limit`.
pub open spec fn rows_below(first: int, step: int, limit: int) -> Seq<i64> {
    Seq::new(row_count(first, step, limit) as nat, |k: int| (first + k * step) as i64)
}

proof fn lemma_row_count(first: int, step: int, limit: int, k: int)
    requires
        step > 0,
        k >= 0,
        first + k * step >= limit,
        k > 0 ==> first + (k - 1) * step < limit,
    ensures
        row_count(first, step, limit) == k,
{
    if k > 0 {
        assert((k - 1) * step == k * step - step) by (nonlinear_arith);
        assert(first < limit) by (nonlinear_arith)
            requires
                first + (k - 1) * step < limit,
                k >= 1,
                step > 0,
        ;
        let d = limit - first - 1;
        vstd::arithmetic::div_mod::lemma_fundamental_div_mod_converse(
            d,
            step,
            k - 1,
            d - (k - 1) * step,
        );
    } else {
        assert(k * step == 0) by (nonlinear_arith)
            requires
                k == 0,
        ;
    }
}

/// The heights from `first` upwards, `step` apart, that are below `limit`.
/// Where there is any, the step must lead upwards.
pub fn rows(first: i64, step: i64, limit: i64) -> (ys: Vec<i64>)
    requires
        first < limit ==> step > 0,
    ensures
        ys@ == rows_below(first as int, step as int, limit as int),
{
    let mut ys: Vec<i64> = Vec::new();
    if first >= limit {
        assert(ys@ =~= rows_below(first as int, step as int, limit as int));
        return ys;
    }
    let mut y: i64 = first;
    let ghost mut k: int = 0;
    while y < limit
        invariant
            step > 0,
            k >= 0,
            ys@.len() == k,
            y == clamp_coord(first + k * step),
            first + k * step >= first,
            k > 0 ==> first + (k - 1) * step < limit,
            forall|j: int| 0 <= j < k ==> ys@[j] == first + j * step,
        decreases (if y < limit { limit - y } else { 0 }),
    {
        ys.push(y);
        let next: i64 = coord_add(y, step);
        proof {
            assert((k + 1) * step == k * step + step) by (nonlinear_arith);
            assert((k + 1 - 1) * step == k * step);
            assert(next > y);
            k = k + 1;
        }
        y = next;
    }
    proof {
        lemma_row_count(first as int, step as int, limit as int, k);
        assert(ys@ =~= rows_below(first as int, step as int, limit as int));
    }
    ys
}

/// The least of `ys`, or `fallback` if there is none.
pub open spec fn lowest_or(fallback: int, ys: Seq<i64>) -> int {
    if ys.len() == 0 {
        fallback
    } else {
        lowest_from(ys[0] as int, ys)
    }
}

/// The greatest of `ys`, or `fallback` if there is none.
pub open spec fn highest_or(fallback: int, ys: Seq<i64>) -> int {
    if ys.len() == 0 {
        fallback
    } else {
        highest_from(ys[0] as int, ys)
    }
}

/// The least of `ys`, or `fallback` if there is none.
pub fn lowest_or_else(fallback: i64, ys: &Vec<i64>) -> (bottom: i64)
    ensures
        bottom == lowest_or(fallback as int, ys@),
{
    if ys.len() == 0 {
        fallback
    } else {
        lowest_of(ys[0], ys)
    }
}

/// The greatest of `ys`, or `fallback` if there is none.
pub fn highest_or_else(fallback: i64, ys: &Vec<i64>) -> (top: i64)
    ensures
        top == highest_or(fallback as int, ys@),
{
    if ys.len() == 0 {
        fallback
    } else {
        highest_of(ys[0], ys)
    }
}

} // verus!
