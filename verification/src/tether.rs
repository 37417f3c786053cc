//! The tether that keeps a walking player near the anchor of its platform.
//!
//! Distances are taken in the metric of the diamond-shaped tiles, in which a
//! step along x counts half: the distance of an offset `(dx, dy)` is the root
//! of `(dx / 2)^2 + dy^2`. All tests here are made on squares, so that no
//! root is ever rounded where it decides anything.

use crate::grid::{PlatformId, Position};
use crate::player::{toward_zero, Player, WORLD_LIMIT};
use crate::stage::StageState;
use vstd::prelude::*;

verus! {

/// The length of the tether, in thousandths of a world unit.
pub const TETHER_RADIUS: i64 = 4_000;

/// Four times the square of the distance of the offset `(dx, dy)`.
pub open spec fn spread(dx: int, dy: int) -> int {
    dx * dx + 4 * (dy * dy)
}

/// Whether the offset `(dx, dy)` is longer than `radius`.
pub open spec fn longer_than(dx: int, dy: int, radius: int) -> bool {
    spread(dx, dy) > (2 * radius) * (2 * radius)
}

/// Whether `root` is the least number whose square is `n` or more.
pub open spec fn is_root_ceiling(n: int, root: int) -> bool {
    &&& root >= 0
    &&& root * root >= n
    &&& root == 0 || (root - 1) * (root - 1) < n
}

/// The least number whose square is `n` or more.
pub open spec fn root_ceiling_of(n: int) -> int {
    choose|root: int| is_root_ceiling(n, root)
}

/// The offset `(dx, dy)` shortened to `radius` at most: an offset that is
/// longer is scaled down by `radius` over its length, the length rounded up
/// and each part rounded towards zero, so that the result is never longer
/// than `radius`.
pub open spec fn shortened(dx: int, dy: int, radius: int) -> (int, int) {
    if longer_than(dx, dy, radius) {
        let length = root_ceiling_of(spread(dx, dy));
        (toward_zero(dx * (2 * radius), length), toward_zero(dy * (2 * radius), length))
    } else {
        (dx, dy)
    }
}

/// Squares grow with their roots.
proof fn lemma_square_grows(a: int, b: int)
    requires
        0 <= a <= b,
    ensures
        a * a <= b * b,
{
    assert(a * a <= b * b) by (nonlinear_arith)
        requires
            0 <= a <= b,
    ;
}

/// A number has one root ceiling only.
pub proof fn lemma_root_ceiling_unique(n: int, r1: int, r2: int)
    requires
        is_root_ceiling(n, r1),
        is_root_ceiling(n, r2),
    ensures
        r1 == r2,
{
    if r1 < r2 {
        lemma_square_grows(r1, r2 - 1);
    } else if r2 < r1 {
        lemma_square_grows(r2, r1 - 1);
    }
}

/// Every number has a root ceiling.
pub proof fn lemma_root_ceiling_exists(n: int)
    ensures
        is_root_ceiling(n, root_ceiling_of(n)),
    decreases n,
{
    if n <= 0 {
        assert(is_root_ceiling(n, 0)) by (nonlinear_arith)
            requires
                n <= 0,
        ;
    } else {
        lemma_root_ceiling_exists(n - 1);
        let below = root_ceiling_of(n - 1);
        if below * below >= n {
            assert(is_root_ceiling(n, below)) by (nonlinear_arith)
                requires
                    is_root_ceiling(n - 1, below),
                    below * below >= n,
                    n > 0,
            ;
        } else {
            assert(is_root_ceiling(n, below + 1)) by (nonlinear_arith)
                requires
                    is_root_ceiling(n - 1, below),
                    below * below < n,
            ;
        }
    }
}

/// The least number whose square is `n` or more.
pub fn root_ceiling(n: u128) -> (root: u128)
    ensures
        is_root_ceiling(n as int, root as int),
        root == root_ceiling_of(n as int),
        root <= 0x1_0000_0000_0000_0000,
        n <= 0x400_0000_0000_0000_0000_0000_0000 ==> root <= 0x20_0000_0000_0000,
{
    let mut low: u128 = 0;
    let mut high: u128 = 0x1_0000_0000_0000_0000;
    assert(0x1_0000_0000_0000_0000 * 0x1_0000_0000_0000_0000
        == 0x1_0000_0000_0000_0000_0000_0000_0000_0000int) by (nonlinear_arith);
    while low < high
        invariant
            low <= high <= 0x1_0000_0000_0000_0000,
            high * high >= n,
            low == 0 || (low - 1) * (low - 1) < n,
        decreases high - low,
    {
        let mid: u128 = low + (high - low) / 2;
        assert(mid * mid <= 0xffff_ffff_ffff_ffff * 0xffff_ffff_ffff_ffff) by (nonlinear_arith)
            requires
                0 <= mid <= 0xffff_ffff_ffff_ffff,
        ;
        if mid * mid >= n {
            high = mid;
        } else {
            low = mid + 1;
        }
    }
    proof {
        let found = root_ceiling_of(n as int);
        assert(is_root_ceiling(n as int, low as int));
        lemma_root_ceiling_unique(n as int, low as int, found);
        if n <= 0x400_0000_0000_0000_0000_0000_0000 && low > 0x20_0000_0000_0000 {
            lemma_square_grows(0x20_0000_0000_0000, low - 1);
            assert(0x20_0000_0000_0000 * 0x20_0000_0000_0000
                == 0x400_0000_0000_0000_0000_0000_0000int) by (nonlinear_arith);
        }
    }
    low
}

/// A part scaled down and rounded towards zero is no larger than the exact
/// quotient: `|part| * length <= |whole| * scale`.
proof fn lemma_scaled_part(whole: int, scale: int, length: int)
    requires
        scale >= 0,
        length > 0,
    ensures
        ({
            let part = toward_zero(whole * scale, length);
            &&& part * part * (length * length) <= (whole * whole) * (scale * scale)
            &&& (whole >= 0 ==> 0 <= part <= whole * scale)
            &&& (whole <= 0 ==> whole * scale <= part <= 0)
        }),
{
    let size: int = if whole >= 0 {
        whole
    } else {
        -whole
    };
    assert(size * scale >= 0) by (nonlinear_arith)
        requires
            size >= 0,
            scale >= 0,
    ;
    let quotient = (size * scale) / length;
    assert(0 <= quotient * length <= size * scale && quotient >= 0 && quotient <= size * scale)
        by (nonlinear_arith)
        requires
            quotient == (size * scale) / length,
            size * scale >= 0,
            length > 0,
    ;
    let part = toward_zero(whole * scale, length);
    assert(whole >= 0 ==> whole * scale == size * scale);
    assert(whole < 0 ==> -(whole * scale) == size * scale && whole * scale <= 0) by (nonlinear_arith)
        requires
            size == -whole || whole >= 0,
            size >= 0,
            scale >= 0,
    ;
    assert(whole == 0 ==> whole * scale == 0) by (nonlinear_arith);
    assert(whole >= 0 ==> part == quotient);
    assert(whole < 0 ==> part == -quotient);
    assert(part == quotient || part == -quotient);
    assert(part * part == quotient * quotient) by (nonlinear_arith)
        requires
            part == quotient || part == -quotient,
    ;
    lemma_square_grows(quotient * length, size * scale);
    assert((quotient * length) * (quotient * length) == quotient * quotient * (length * length))
        by (nonlinear_arith);
    assert((size * scale) * (size * scale) == (whole * whole) * (scale * scale))
        by (nonlinear_arith)
        requires
            size == whole || size == -whole,
    ;
    assert(part * part * (length * length) == quotient * quotient * (length * length))
        by (nonlinear_arith)
        requires
            part * part == quotient * quotient,
    ;
    assert(part * part * (length * length) <= (whole * whole) * (scale * scale));
    assert(whole >= 0 ==> 0 <= part <= whole * scale);
    assert(whole <= 0 ==> whole * scale <= part <= 0);
}

/// A part scaled down and rounded towards zero falls short of the exact
/// quotient by less than one: `(|part| + 1) * length > |whole| * scale`.
proof fn lemma_scaled_part_reaches(whole: int, scale: int, length: int)
    requires
        scale >= 0,
        length > 0,
    ensures
        ({
            let part = toward_zero(whole * scale, length);
            exists|size: int|
                {
                    &&& size >= 0
                    &&& #[trigger] (size * size) == part * part
                    &&& (size * size + 2 * size + 1) * (length * length) > (whole * whole) * (scale
                        * scale)
                }
        }),
{
    let bulk: int = if whole >= 0 {
        whole
    } else {
        -whole
    };
    assert(bulk * scale >= 0) by (nonlinear_arith)
        requires
            bulk >= 0,
            scale >= 0,
    ;
    let quotient = (bulk * scale) / length;
    assert(quotient >= 0 && (quotient + 1) * length > bulk * scale) by (nonlinear_arith)
        requires
            quotient == (bulk * scale) / length,
            bulk * scale >= 0,
            length > 0,
    ;
    let part = toward_zero(whole * scale, length);
    assert(whole == 0 ==> whole * scale == 0) by (nonlinear_arith);
    assert(whole < 0 ==> -(whole * scale) == bulk * scale && whole * scale <= 0) by (nonlinear_arith)
        requires
            bulk == -whole || whole >= 0,
            bulk >= 0,
            scale >= 0,
    ;
    assert(part == quotient || part == -quotient);
    assert(part * part == quotient * quotient) by (nonlinear_arith)
        requires
            part == quotient || part == -quotient,
    ;
    assert(((quotient + 1) * length) * ((quotient + 1) * length) > (bulk * scale) * (bulk * scale))
        by (nonlinear_arith)
        requires
            (quotient + 1) * length > bulk * scale,
            bulk * scale >= 0,
    ;
    assert(((quotient + 1) * length) * ((quotient + 1) * length) == (quotient * quotient + 2
        * quotient + 1) * (length * length)) by (nonlinear_arith);
    assert((bulk * scale) * (bulk * scale) == (whole * whole) * (scale * scale))
        by (nonlinear_arith)
        requires
            bulk == whole || bulk == -whole,
    ;
    assert(quotient * quotient == part * part);
}

/// An offset that is shortened to a radius reaches the radius but for the
/// rounding: it falls short of it by less than three thousandths.
pub proof fn lemma_shortened_reaches(dx: int, dy: int, radius: int)
    requires
        radius >= 8,
        longer_than(dx, dy, radius),
    ensures
        spread(shortened(dx, dy, radius).0, shortened(dx, dy, radius).1) > (2 * radius - 5) * (2
            * radius - 5),
{
    let n = spread(dx, dy);
    let length = root_ceiling_of(n);
    let scale = 2 * radius;
    lemma_root_ceiling_exists(n);
    assert(scale * scale >= 0) by (nonlinear_arith);
    lemma_root_positive(n, length);
    let px = toward_zero(dx * scale, length);
    let py = toward_zero(dy * scale, length);
    lemma_shortened_within(dx, dy, radius);
    lemma_scaled_part_reaches(dx, scale, length);
    lemma_scaled_part_reaches(dy, scale, length);
    let p = choose|size: int|
        {
            &&& size >= 0
            &&& #[trigger] (size * size) == px * px
            &&& (size * size + 2 * size + 1) * (length * length) > (dx * dx) * (scale * scale)
        };
    let q = choose|size: int|
        {
            &&& size >= 0
            &&& #[trigger] (size * size) == py * py
            &&& (size * size + 2 * size + 1) * (length * length) > (dy * dy) * (scale * scale)
        };
    let ll = length * length;
    let ss = scale * scale;
    let found = p * p + 4 * (q * q);
    assert(found == spread(px, py));
    assert(found <= ss);
    // the parts are within the scale, and the length is beyond it
    assert(p <= scale && 2 * q <= scale) by (nonlinear_arith)
        requires
            p * p + 4 * (q * q) <= scale * scale,
            p >= 0,
            q >= 0,
            scale >= 0,
    ;
    assert(length > scale) by (nonlinear_arith)
        requires
            length * length >= n,
            n > scale * scale,
            length > 0,
            scale >= 0,
    ;
    // one more on each part overshoots the exact quotient
    let over = found + 2 * p + 8 * q + 5;
    assert(over == (p * p + 2 * p + 1) + 4 * (q * q + 2 * q + 1));
    assert(over * ll > ss * n) by (nonlinear_arith)
        requires
            (p * p + 2 * p + 1) * ll > (dx * dx) * ss,
            (q * q + 2 * q + 1) * ll > (dy * dy) * ss,
            over == (p * p + 2 * p + 1) + 4 * (q * q + 2 * q + 1),
            n == dx * dx + 4 * (dy * dy),
    ;
    assert(ss * n >= ss * ((length - 1) * (length - 1))) by (nonlinear_arith)
        requires
            n > (length - 1) * (length - 1),
            ss >= 0,
    ;
    let short = (scale - 5) * (scale - 5);
    if found <= short {
        assert(over <= ss - 4 * scale + 30) by (nonlinear_arith)
            requires
                over == found + 2 * p + 8 * q + 5,
                found <= (scale - 5) * (scale - 5),
                p <= scale,
                2 * q <= scale,
                ss == scale * scale,
        ;
        assert((ss - 4 * scale + 30) * ll <= ss * ((length - 1) * (length - 1)))
            by (nonlinear_arith)
            requires
                ss == scale * scale,
                ll == length * length,
                length >= scale + 1,
                scale >= 16,
        ;
        assert(over * ll <= (ss - 4 * scale + 30) * ll) by (nonlinear_arith)
            requires
                over <= ss - 4 * scale + 30,
                ll >= 0,
        ;
        assert(false);
    }
}

/// The root ceiling of a positive number is positive.
proof fn lemma_root_positive(n: int, root: int)
    requires
        n > 0,
        is_root_ceiling(n, root),
    ensures
        root > 0,
{
    assert(root != 0) by (nonlinear_arith)
        requires
            root * root >= n,
            n > 0,
    ;
}

/// An offset shortened to a radius is not longer than the radius.
pub proof fn lemma_shortened_within(dx: int, dy: int, radius: int)
    requires
        radius >= 0,
    ensures
        !longer_than(shortened(dx, dy, radius).0, shortened(dx, dy, radius).1, radius),
{
    if longer_than(dx, dy, radius) {
        let n = spread(dx, dy);
        let length = root_ceiling_of(n);
        let scale = 2 * radius;
        lemma_root_ceiling_exists(n);
        assert(scale * scale >= 0) by (nonlinear_arith);
        lemma_root_positive(n, length);
        let px = toward_zero(dx * scale, length);
        let py = toward_zero(dy * scale, length);
        lemma_scaled_part(dx, scale, length);
        lemma_scaled_part(dy, scale, length);
        let ll = length * length;
        let ss = scale * scale;
        assert(ll > 0) by (nonlinear_arith)
            requires
                length > 0,
                ll == length * length,
        ;
        assert(spread(px, py) * ll <= ss * ll) by (nonlinear_arith)
            requires
                px * px * ll <= (dx * dx) * ss,
                py * py * ll <= (dy * dy) * ss,
                dx * dx + 4 * (dy * dy) <= ll,
                ss >= 0,
                spread(px, py) == px * px + 4 * (py * py),
        ;
        assert(spread(px, py) <= ss) by (nonlinear_arith)
            requires
                spread(px, py) * ll <= ss * ll,
                ll > 0,
        ;
    }
}

/// Whether `distance` is the distance of the offset `(dx, dy)`, rounded up to
/// a whole number: the least number that is not less than the distance.
pub open spec fn is_distance(dx: int, dy: int, distance: int) -> bool {
    &&& distance >= 0
    &&& 4 * (distance * distance) >= spread(dx, dy)
    &&& distance == 0 || 4 * ((distance - 1) * (distance - 1)) < spread(dx, dy)
}

/// An offset is longer than a whole length exactly if its distance, rounded
/// up, is greater than the length: rounding up decides nothing wrongly.
pub proof fn lemma_distance_decides(dx: int, dy: int, distance: int, length: int)
    requires
        is_distance(dx, dy, distance),
        length >= 0,
    ensures
        distance > length <==> longer_than(dx, dy, length),
{
    assert((2 * length) * (2 * length) == 4 * (length * length)) by (nonlinear_arith);
    if distance > length {
        lemma_square_grows(length, distance - 1);
    } else {
        lemma_square_grows(distance, length);
    }
}

/// Where the point `mover` is held on a tether of `length` that is fixed at
/// `tether`: where it is, if that is within reach, else on the way back to
/// `tether` at the tether's length. The depth is left alone.
pub open spec fn held_within(mover: Position, tether: Position, length: int) -> Position {
    let held = shortened(mover.x - tether.x, mover.y - tether.y, length);
    Position { x: (tether.x + held.0) as i64, y: (tether.y + held.1) as i64, z: mover.z }
}

/// Four times the square of the distance of the offset `(dx, dy)`.
fn spread_of(dx: i128, dy: i128) -> (n: u128)
    requires
        -0x8_0000_0000_0000 <= dx <= 0x8_0000_0000_0000,
        -0x8_0000_0000_0000 <= dy <= 0x8_0000_0000_0000,
    ensures
        n == spread(dx as int, dy as int),
        n <= 0x400_0000_0000_0000_0000_0000_0000,
{
    assert(0 <= dx * dx <= 0x8_0000_0000_0000 * 0x8_0000_0000_0000) by (nonlinear_arith)
        requires
            -0x8_0000_0000_0000 <= dx <= 0x8_0000_0000_0000,
    ;
    assert(0 <= dy * dy <= 0x8_0000_0000_0000 * 0x8_0000_0000_0000) by (nonlinear_arith)
        requires
            -0x8_0000_0000_0000 <= dy <= 0x8_0000_0000_0000,
    ;
    (dx * dx + 4 * (dy * dy)) as u128
}

/// The distance between `va` and `vb` in the metric of the tiles, rounded up
/// to a whole number of thousandths.
pub fn distance_2d_iso(va: &Position, vb: &Position) -> (distance: u64)
    requires
        va.in_world(),
        vb.in_world(),
    ensures
        is_distance(va.x - vb.x, va.y - vb.y, distance as int),
{
    let dx: i128 = va.x as i128 - vb.x as i128;
    let dy: i128 = va.y as i128 - vb.y as i128;
    let n = spread_of(dx, dy);
    let root = root_ceiling(n);
    let distance: u64 = ((root + 1) / 2) as u64;
    proof {
        assert(4 * (distance * distance) == (2 * distance) * (2 * distance)) by (nonlinear_arith);
        lemma_square_grows(root as int, 2 * distance);
        if distance > 0 {
            assert(4 * ((distance - 1) * (distance - 1)) == (2 * (distance - 1)) * (2 * (distance
                - 1))) by (nonlinear_arith);
            lemma_square_grows(2 * (distance - 1), root - 1);
        }
    }
    distance
}

/// Holds the point `mover` on a tether of `length` that is fixed at `tether`:
/// a point beyond the tether's reach is pulled straight back to its end.
pub fn tether_at(mover: &mut Position, tether: &Position, length: i64)
    requires
        old(mover).in_world(),
        tether.in_world(),
        0 <= length <= WORLD_LIMIT,
    ensures
        *final(mover) == held_within(*old(mover), *tether, length as int),
        !longer_than(final(mover).x - tether.x, final(mover).y - tether.y, length as int),
        -2 * length <= final(mover).x - tether.x <= 2 * length,
        -2 * length <= final(mover).y - tether.y <= 2 * length,
        length >= 8 && longer_than(old(mover).x - tether.x, old(mover).y - tether.y, length as int)
            ==> spread(final(mover).x - tether.x, final(mover).y - tether.y) > (2 * length - 5) * (2
            * length - 5),
{
    let dx: i128 = mover.x as i128 - tether.x as i128;
    let dy: i128 = mover.y as i128 - tether.y as i128;
    let scale: i128 = 2 * length as i128;
    assert(0 <= scale * scale <= 0x8_0000_0000_0000 * 0x8_0000_0000_0000) by (nonlinear_arith)
        requires
            0 <= scale <= 0x8_0000_0000_0000,
    ;
    let n = spread_of(dx, dy);
    proof {
        lemma_shortened_within(dx as int, dy as int, length as int);
        if length >= 8 && longer_than(dx as int, dy as int, length as int) {
            lemma_shortened_reaches(dx as int, dy as int, length as int);
        }
    }
    let ghost short = shortened(dx as int, dy as int, length as int);
    let (px, py): (i128, i128) = if n > (scale * scale) as u128 {
        let reach = root_ceiling(n);
        proof {
            lemma_root_positive(n as int, reach as int);
            lemma_magnitude_bound(dx as int, scale as int);
            lemma_magnitude_bound(dy as int, scale as int);
        }
        ((dx * scale) / reach as i128, (dy * scale) / reach as i128)
    } else {
        (dx, dy)
    };
    proof {
        assert(short.0 == px && short.1 == py);
        assert(px * px <= scale * scale && py * py <= scale * scale) by (nonlinear_arith)
            requires
                px * px + 4 * (py * py) <= scale * scale,
        ;
        lemma_root_bound(px as int, scale as int);
        lemma_root_bound(py as int, scale as int);
    }
    mover.x = (tether.x as i128 + px) as i64;
    mover.y = (tether.y as i128 + py) as i64;
}

/// A product of bounded factors is bounded.
proof fn lemma_magnitude_bound(whole: int, scale: int)
    requires
        -0x8_0000_0000_0000 <= whole <= 0x8_0000_0000_0000,
        0 <= scale <= 0x8_0000_0000_0000,
    ensures
        -0x8_0000_0000_0000 * 0x8_0000_0000_0000 <= whole * scale <= 0x8_0000_0000_0000
            * 0x8_0000_0000_0000,
{
    assert(-0x8_0000_0000_0000 * 0x8_0000_0000_0000 <= whole * scale <= 0x8_0000_0000_0000
        * 0x8_0000_0000_0000) by (nonlinear_arith)
        requires
            -0x8_0000_0000_0000 <= whole <= 0x8_0000_0000_0000,
            0 <= scale <= 0x8_0000_0000_0000,
    ;
}

/// A number whose square is no more than that of a bound lies within the bound.
proof fn lemma_root_bound(part: int, bound: int)
    requires
        bound >= 0,
        part * part <= bound * bound,
    ensures
        -bound <= part <= bound,
{
    if part > bound {
        assert(part * part > bound * bound) by (nonlinear_arith)
            requires
                part > bound,
                bound >= 0,
        ;
    } else if part < -bound {
        assert(part * part > bound * bound) by (nonlinear_arith)
            requires
                part < -bound,
                bound >= 0,
        ;
    }
}

impl Player {
    /// Whether the tether holds back a player that has walked to `at`.
    pub open spec fn strains(at: Position, anchor: Position) -> bool {
        longer_than(at.x - anchor.x, at.y - anchor.y, TETHER_RADIUS as int)
    }

    /// The anchor of the platform that the player is on, if it is on one.
    pub open spec fn anchor_in(self, stage: &StageState) -> Option<Position> {
        match self.platform {
            Some(id) => if id < stage.platforms.platforms@.len() {
                Some(stage.platforms.platforms@[id as int].anchor_of())
            } else {
                None
            },
            None => None,
        }
    }

    /// Where a player that has walked to `at` is held: where the tether to
    /// its platform holds it, or at `at` if it is on no platform.
    pub open spec fn held_in(self, stage: &StageState, at: Position) -> Position {
        match self.anchor_in(stage) {
            Some(anchor) => held_within(at, anchor, TETHER_RADIUS as int),
            None => at,
        }
    }

    /// The player once it is tethered at `at`: it is on the edge exactly
    /// while the tether holds it back. A player on no platform is left as it is.
    pub open spec fn after_tether(self, stage: &StageState, at: Position) -> Player {
        match self.anchor_in(stage) {
            Some(anchor) => Player { on_edge: Player::strains(at, anchor), ..self },
            None => self,
        }
    }

    /// Tethers the player, who has walked to `at`, to its platform, and says
    /// where the tether holds it: never beyond the tether's length.
    pub fn tether(&mut self, stage: &StageState, at: Position) -> (held: Position)
        requires
            at.in_world(),
        ensures
            held == old(self).held_in(stage, at),
            *final(self) == old(self).after_tether(stage, at),
            held.in_world(),
            held.z == at.z,
            old(self).anchor_in(stage) matches Some(anchor) ==> {
                &&& !Player::strains(held, anchor)
                &&& Player::strains(at, anchor) ==> spread(held.x - anchor.x, held.y - anchor.y) > (
                2 * TETHER_RADIUS - 5) * (2 * TETHER_RADIUS - 5)
            },
    {
        let anchor = match self.platform {
            Some(id) => if id < stage.platforms.platforms.len() {
                stage.platforms.platforms[id].anchor()
            } else {
                return at;
            },
            None => {
                return at;
            },
        };
        let distance = distance_2d_iso(&at, &anchor);
        proof {
            lemma_distance_decides(
                at.x - anchor.x,
                at.y - anchor.y,
                distance as int,
                TETHER_RADIUS as int,
            );
        }
        self.on_edge = distance > TETHER_RADIUS as u64;
        let mut held = at;
        tether_at(&mut held, &anchor, TETHER_RADIUS);
        held
    }
}

} // verus!
