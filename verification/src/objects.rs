//! The moving actor and the placeable power-up, with the per-axis physics:
//! movement, entity-entity collision resolution, wall bounce, and the
//! one-shot pickup effect.

use vstd::prelude::*;
use crate::direction::{Direction, lemma_value_injective};
use crate::geom::{Rect, COORD_LIMIT, SIZE_LIMIT, spec_overlaps, spec_overlap_x, spec_overlap_y};

verus! {

/// Largest speed an entity may enter a frame with.
pub const SPEED_LIMIT: i64 = 1_000_000_000;

/// Largest one-shot speed increment a power-up may carry.
pub const BOOST_LIMIT: i64 = 1_000_000;

/// Largest elapsed time a single frame may account for.
pub const TIME_LIMIT: i64 = 1_000_000;

/// Largest magnitude a position may have when a frame begins.
pub const POS_LIMIT: i64 = 1_000_000_000_000_000;

/// One actor: a named square box with per-axis directions, a scalar speed,
/// a score, and the transient killer flag granted by the sword pickup.
pub struct Entity {
    pub name: String,
    pub size: i64,
    pub speed: i64,
    pub direction_x: Direction,
    pub direction_y: Direction,
    pub x: i64,
    pub y: i64,
    pub score: i64,
    pub is_killer: bool,
}

/// What a power-up does to the entity that catches it.
#[derive(Clone, Copy, Debug, PartialEq, Eq, Structural)]
pub enum WeaponKind {
    /// Grants the one-shot killer state.
    KillGrant,
    /// Adds the carried amount to the catcher's speed.
    SpeedBoost(i64),
}

/// A placeable, single-use power-up.
#[derive(Clone, Copy, Debug, PartialEq, Eq, Structural)]
pub struct Weapon {
    pub size: i64,
    pub x: i64,
    pub y: i64,
    pub is_placed: bool,
    pub kind: WeaponKind,
}

impl Entity {
    /// The square bounding box, anchored at the top-left corner.
    pub open spec fn spec_rect(self) -> Rect {
        Rect { x: self.x, y: self.y, w: self.size, h: self.size }
    }

    /// Bounds under which a frame's box arithmetic cannot overflow.
    pub open spec fn in_calc_bounds(self) -> bool {
        &&& -COORD_LIMIT <= self.x <= COORD_LIMIT
        &&& -COORD_LIMIT <= self.y <= COORD_LIMIT
        &&& 0 <= self.size <= SIZE_LIMIT
    }

    /// The bounding box as a value.
    pub fn rect(&self) -> (r: Rect)
        ensures
            r == self.spec_rect(),
    {
        Rect { x: self.x, y: self.y, w: self.size, h: self.size }
    }

    /// True when the two actors' boxes overlap with positive width and
    /// height on both axes.
    pub fn collides_with(&self, other: &Self) -> (r: bool)
        requires
            self.in_calc_bounds(),
            other.in_calc_bounds(),
        ensures
            r == spec_overlaps(self.spec_rect(), other.spec_rect()),
    {
        let r1 = self.rect();
        let r2 = other.rect();
        r1.overlaps(&r2)
    }

    /// The same overlap test, against a power-up's (smaller) box.
    pub fn catch_weapon(&self, weapon: &Weapon) -> (r: bool)
        requires
            self.in_calc_bounds(),
            weapon.in_calc_bounds(),
        ensures
            r == spec_overlaps(self.spec_rect(), weapon.spec_rect()),
    {
        let r1 = self.rect();
        let r2 = weapon.rect();
        r1.overlaps(&r2)
    }

    /// Advance the position by one frame of travel: each axis moves by
    /// exactly `speed * direction.value() * elapsed`; zero elapsed time is
    /// a no-op.
    pub fn move_frame(&mut self, elapsed: i64)
        requires
            0 <= elapsed <= TIME_LIMIT,
            1 <= old(self).speed <= SPEED_LIMIT + BOOST_LIMIT,
            -POS_LIMIT <= old(self).x <= POS_LIMIT,
            -POS_LIMIT <= old(self).y <= POS_LIMIT,
        ensures
            *final(self) == spec_move(*old(self), elapsed as int),
            final(self).x == old(self).x
                + old(self).direction_x.spec_value() * old(self).speed * elapsed,
            final(self).y == old(self).y
                + old(self).direction_y.spec_value() * old(self).speed * elapsed,
            -COORD_LIMIT <= final(self).x <= COORD_LIMIT,
            -COORD_LIMIT <= final(self).y <= COORD_LIMIT,
    {
        proof {
            let sp = old(self).speed as int;
            let el = elapsed as int;
            assert(0 <= sp * el <= (SPEED_LIMIT + BOOST_LIMIT) * TIME_LIMIT)
                by (nonlinear_arith)
                requires
                    1 <= sp <= SPEED_LIMIT + BOOST_LIMIT,
                    0 <= el <= TIME_LIMIT,
            ;
        }
        let step = self.speed * elapsed;
        let sx = self.direction_x.value();
        let sy = self.direction_y.value();
        if sx == 1 {
            self.x = self.x + step;
        } else {
            self.x = self.x - step;
        }
        if sy == 1 {
            self.y = self.y + step;
        } else {
            self.y = self.y - step;
        }
        proof {
            let sp = old(self).speed as int;
            let el = elapsed as int;
            assert(1 * sp * el == sp * el) by (nonlinear_arith);
            assert((-1) * sp * el == -(sp * el)) by (nonlinear_arith);
        }
    }

    /// Where a carried power-up sits, relative to the carrier's horizontal
    /// facing: just past the right edge when travelling Pos, just past the
    /// left edge otherwise, half the power-up's size below the top edge.
    pub fn attach_weapon(&self, weapon: &Weapon) -> (pos: (i64, i64))
        requires
            self.in_calc_bounds(),
            weapon.in_calc_bounds(),
        ensures
            pos.0 == (if self.direction_x is Pos {
                self.x + self.size
            } else {
                self.x - weapon.size
            }),
            pos.1 == self.y + weapon.size / 2,
    {
        let is_ltr = self.direction_x.value() > 0;
        let px = if is_ltr {
            self.x + self.size
        } else {
            self.x - weapon.size
        };
        let py = self.y + weapon.size / 2;
        (px, py)
    }

    /// Infer a wall hit from the clamp's effect: an axis that was pushed
    /// back against its travel direction flips that direction.
    pub fn check_bounce(&mut self, prev_x: i64, prev_y: i64)
        ensures
            *final(self) == spec_check_bounce(*old(self), prev_x as int, prev_y as int),
    {
        if self.is_direction_x(Direction::Pos) && self.x < prev_x {
            self.direction_x = Direction::Neg;
        } else if self.is_direction_x(Direction::Neg) && self.x > prev_x {
            self.direction_x = Direction::Pos;
        }

        if self.is_direction_y(Direction::Pos) && self.y < prev_y {
            self.direction_y = Direction::Neg;
        } else if self.is_direction_y(Direction::Neg) && self.y > prev_y {
            self.direction_y = Direction::Pos;
        }
    }

    /// The entity-entity collision resolver: on the axis of least
    /// penetration, flip directions (only the faster one flips when both
    /// travel the same way; ties flip both), push the pair apart by half
    /// the overlap each, then let a killer consume its flag against the
    /// other's score.  Returns whether a kill fired.
    #[verifier::rlimit(100)]
    pub fn switch_direction(&mut self, other: &mut Entity) -> (killed: bool)
        requires
            old(self).in_calc_bounds(),
            old(other).in_calc_bounds(),
            old(self).score > i64::MIN,
            old(other).score > i64::MIN,
        ensures
            ({
                let (s2, o2, k) = spec_switch_direction(*old(self), *old(other));
                *final(self) == s2 && *final(other) == o2 && killed == k
            }),
    {
        let r1 = self.rect();
        let r2 = other.rect();

        let left = if r1.x > r2.x { r1.x } else { r2.x };
        let right1 = r1.x + r1.w;
        let right2 = r2.x + r2.w;
        let right = if right1 < right2 { right1 } else { right2 };
        let top = if r1.y > r2.y { r1.y } else { r2.y };
        let bottom1 = r1.y + r1.h;
        let bottom2 = r2.y + r2.h;
        let bottom = if bottom1 < bottom2 { bottom1 } else { bottom2 };
        let overlap_x = right - left;
        let overlap_y = bottom - top;

        if overlap_x > 0 && overlap_y > 0 {
            let max_speed = if self.speed > other.speed { self.speed } else { other.speed };
            if overlap_x < overlap_y {
                if self.direction_x.value() == other.direction_x.value() {
                    if self.speed == max_speed {
                        self.direction_x.switch();
                    }
                    if other.speed == max_speed {
                        other.direction_x.switch();
                    }
                } else {
                    self.direction_x.switch();
                    other.direction_x.switch();
                }

                let dx = r1.x - r2.x;
                let separation = overlap_x / 2;
                if dx < 0 {
                    self.x = self.x - separation;
                    other.x = other.x + separation;
                } else {
                    self.x = self.x + separation;
                    other.x = other.x - separation;
                }
            } else {
                if self.direction_y.value() == other.direction_y.value() {
                    if self.speed == max_speed {
                        self.direction_y.switch();
                    }
                    if other.speed == max_speed {
                        other.direction_y.switch();
                    }
                } else {
                    self.direction_y.switch();
                    other.direction_y.switch();
                }

                let dy = r1.y - r2.y;
                let separation = overlap_y / 2;
                if dy < 0 {
                    self.y = self.y - separation;
                    other.y = other.y + separation;
                } else {
                    self.y = self.y + separation;
                    other.y = other.y - separation;
                }
            }

            if self.is_killer {
                self.kill(other);
                true
            } else if other.is_killer {
                other.kill(self);
                true
            } else {
                false
            }
        } else {
            false
        }
    }

    /// Consume the killer flag: the opponent loses one score point.
    fn kill(&mut self, other: &mut Entity)
        requires
            old(other).score > i64::MIN,
        ensures
            *final(self) == (Entity { is_killer: false, ..*old(self) }),
            *final(other) == (Entity { score: (old(other).score - 1) as i64, ..*old(other) }),
    {
        other.score = other.score - 1;
        self.is_killer = false;
    }

    /// Compares by sign value, which coincides with variant equality.
    fn is_direction_x(&self, direction: Direction) -> (r: bool)
        ensures
            r == (self.direction_x == direction),
    {
        let r = self.direction_x.value() == direction.value();
        proof {
            lemma_value_injective(self.direction_x, direction);
        }
        r
    }

    /// Compares by sign value, which coincides with variant equality.
    fn is_direction_y(&self, direction: Direction) -> (r: bool)
        ensures
            r == (self.direction_y == direction),
    {
        let r = self.direction_y.value() == direction.value();
        proof {
            lemma_value_injective(self.direction_y, direction);
        }
        r
    }
}

/// The position after one frame of travel.
pub open spec fn spec_move(e: Entity, t: int) -> Entity {
    Entity {
        x: (e.x + e.direction_x.spec_value() * e.speed * t) as i64,
        y: (e.y + e.direction_y.spec_value() * e.speed * t) as i64,
        ..e
    }
}

/// The direction after the clamp's effect is inspected on one axis.
pub open spec fn spec_bounce_dir(d: Direction, now: int, prev: int) -> Direction {
    if d is Pos && now < prev {
        Direction::Neg
    } else if d is Neg && now > prev {
        Direction::Pos
    } else {
        d
    }
}

/// The entity after both axes' bounce checks.
pub open spec fn spec_check_bounce(e: Entity, prev_x: int, prev_y: int) -> Entity {
    Entity {
        direction_x: spec_bounce_dir(e.direction_x, e.x as int, prev_x),
        direction_y: spec_bounce_dir(e.direction_y, e.y as int, prev_y),
        ..e
    }
}

/// The two directions on the resolution axis after a collision: matching
/// directions flip only at the shared maximum speed, opposite directions
/// both flip.
pub open spec fn spec_axis_dirs(sd: Direction, od: Direction, ss: int, os: int) -> (
    Direction,
    Direction,
) {
    if sd == od {
        (
            if ss >= os {
                sd.spec_switch()
            } else {
                sd
            },
            if os >= ss {
                od.spec_switch()
            } else {
                od
            },
        )
    } else {
        (sd.spec_switch(), od.spec_switch())
    }
}

/// The coordinate pair after pushing the two entities apart by half the
/// overlap each, away from each other.
pub open spec fn spec_separate(sc: int, oc: int, overlap: int) -> (int, int) {
    let sep = overlap / 2;
    if sc - oc < 0 {
        (sc - sep, oc + sep)
    } else {
        (sc + sep, oc - sep)
    }
}

/// The killer-consumption step after a resolved collision: the initiating
/// side is checked first; exactly one kill can fire.
pub open spec fn spec_kill_step(s: Entity, o: Entity) -> (Entity, Entity, bool) {
    if s.is_killer {
        (
            Entity { is_killer: false, ..s },
            Entity { score: (o.score - 1) as i64, ..o },
            true,
        )
    } else if o.is_killer {
        (
            Entity { score: (s.score - 1) as i64, ..s },
            Entity { is_killer: false, ..o },
            true,
        )
    } else {
        (s, o, false)
    }
}

/// The whole collision resolver: with positive overlap on both axes,
/// resolve along the axis of smaller overlap and then run the killer
/// step; otherwise nothing changes.
pub open spec fn spec_switch_direction(s: Entity, o: Entity) -> (Entity, Entity, bool) {
    let ox = spec_overlap_x(s.spec_rect(), o.spec_rect());
    let oy = spec_overlap_y(s.spec_rect(), o.spec_rect());
    if ox > 0 && oy > 0 {
        if ox < oy {
            let (sd, od) = spec_axis_dirs(s.direction_x, o.direction_x, s.speed as int, o.speed as int);
            let (sx, ocx) = spec_separate(s.x as int, o.x as int, ox);
            spec_kill_step(
                Entity { direction_x: sd, x: sx as i64, ..s },
                Entity { direction_x: od, x: ocx as i64, ..o },
            )
        } else {
            let (sd, od) = spec_axis_dirs(s.direction_y, o.direction_y, s.speed as int, o.speed as int);
            let (sy, ocy) = spec_separate(s.y as int, o.y as int, oy);
            spec_kill_step(
                Entity { direction_y: sd, y: sy as i64, ..s },
                Entity { direction_y: od, y: ocy as i64, ..o },
            )
        }
    } else {
        (s, o, false)
    }
}

impl Weapon {
    /// The square bounding box, anchored at the top-left corner.
    pub open spec fn spec_rect(self) -> Rect {
        Rect { x: self.x, y: self.y, w: self.size, h: self.size }
    }

    /// Bounds under which a frame's box arithmetic cannot overflow.
    pub open spec fn in_calc_bounds(self) -> bool {
        &&& -COORD_LIMIT <= self.x <= COORD_LIMIT
        &&& -COORD_LIMIT <= self.y <= COORD_LIMIT
        &&& 0 <= self.size <= SIZE_LIMIT
    }

    /// A speed boost carries a bounded, non-negative amount.
    pub open spec fn kind_wf(self) -> bool {
        match self.kind {
            WeaponKind::KillGrant => true,
            WeaponKind::SpeedBoost(amount) => 0 <= amount <= BOOST_LIMIT,
        }
    }

    /// The bounding box as a value.
    pub fn rect(&self) -> (r: Rect)
        ensures
            r == self.spec_rect(),
    {
        Rect { x: self.x, y: self.y, w: self.size, h: self.size }
    }

    /// Apply the one-shot effect to the catcher, then leave the placed
    /// state: a consumed pickup is no longer collidable.
    pub fn on_catch(&mut self, with: &mut Entity)
        requires
            (match old(self).kind {
                WeaponKind::KillGrant => true,
                WeaponKind::SpeedBoost(amount) => 0 <= amount
                    && old(with).speed + amount <= i64::MAX,
            }),
        ensures
            *final(self) == (Weapon { is_placed: false, ..*old(self) }),
            *final(with) == spec_apply_effect(old(self).kind, *old(with)),
    {
        match self.kind {
            WeaponKind::KillGrant => {
                with.is_killer = true;
            }
            WeaponKind::SpeedBoost(amount) => {
                with.speed = with.speed + amount;
            }
        }
        self.is_placed = false;
    }
}

/// Law: the collision test is symmetric in the two actors.
pub proof fn lemma_collision_symmetric(a: Entity, b: Entity)
    ensures
        spec_overlaps(a.spec_rect(), b.spec_rect()) == spec_overlaps(b.spec_rect(), a.spec_rect()),
{
    crate::geom::lemma_overlaps_symmetric(a.spec_rect(), b.spec_rect());
}

/// Law: resolving a colliding pair of equal-size entities reduces the
/// penetration on the resolution axis.  With at least two units of
/// overlap there, the separation leaves at most one unit (the odd
/// remainder of halving), strictly less than before.  A single unit of
/// overlap has no integer half to move, and stays; an axis on which one
/// unequal box strictly contains the other can keep its overlap under
/// any push-apart, so equal sizes are assumed, as the arena guarantees.
pub proof fn lemma_separation_reduces_overlap(s: Entity, o: Entity)
    requires
        s.in_calc_bounds(),
        o.in_calc_bounds(),
        s.size == o.size,
        spec_overlap_x(s.spec_rect(), o.spec_rect()) > 0,
        spec_overlap_y(s.spec_rect(), o.spec_rect()) > 0,
        vstd::math::min(
            spec_overlap_x(s.spec_rect(), o.spec_rect()),
            spec_overlap_y(s.spec_rect(), o.spec_rect()),
        ) >= 2,
    ensures
        ({
            let ox = spec_overlap_x(s.spec_rect(), o.spec_rect());
            let oy = spec_overlap_y(s.spec_rect(), o.spec_rect());
            let (s2, o2, _) = spec_switch_direction(s, o);
            if ox < oy {
                spec_overlap_x(s2.spec_rect(), o2.spec_rect()) == ox % 2
                    && spec_overlap_x(s2.spec_rect(), o2.spec_rect()) < ox
            } else {
                spec_overlap_y(s2.spec_rect(), o2.spec_rect()) == oy % 2
                    && spec_overlap_y(s2.spec_rect(), o2.spec_rect()) < oy
            }
        }),
{
}

/// What the collision resolver can and cannot change: names, sizes and
/// speeds are untouched; a kill moves exactly one score point, and only
/// downward; nobody becomes a killer through a collision.
pub proof fn lemma_switch_direction_effects(s: Entity, o: Entity)
    requires
        s.score > i64::MIN,
        o.score > i64::MIN,
    ensures
        ({
            let (s2, o2, k) = spec_switch_direction(s, o);
            &&& s2.speed == s.speed
            &&& o2.speed == o.speed
            &&& s2.size == s.size
            &&& o2.size == o.size
            &&& s2.name == s.name
            &&& o2.name == o.name
            &&& (k ==> s2.score + o2.score == s.score + o.score - 1)
            &&& (!k ==> s2.score == s.score && o2.score == o.score)
            &&& s.score - 1 <= s2.score <= s.score
            &&& o.score - 1 <= o2.score <= o.score
            &&& (s2.is_killer ==> s.is_killer)
            &&& (o2.is_killer ==> o.is_killer)
            &&& (k ==> s.is_killer || o.is_killer)
        }),
{
}

/// What one pickup effect does to an entity.
pub open spec fn spec_apply_effect(kind: WeaponKind, e: Entity) -> Entity {
    match kind {
        WeaponKind::KillGrant => Entity { is_killer: true, ..e },
        WeaponKind::SpeedBoost(amount) => Entity { speed: (e.speed + amount) as i64, ..e },
    }
}

} // verus!
