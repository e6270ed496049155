//! The arena orchestrator: two entities and two power-ups inside a bordered
//! rectangle derived from the viewport.  One `update` call advances the
//! simulation by one frame, in the fixed order: size sync, pickup
//! resolution, spawn rolls, movement, collision resolution, wall clamp and
//! bounce.

use vstd::prelude::*;
use crate::direction::Direction;
use crate::geom::{Rect, SIZE_LIMIT, clamp_i64, spec_clamp, spec_overlaps};
use crate::objects::{
    Entity, Weapon, WeaponKind, BOOST_LIMIT, POS_LIMIT, SPEED_LIMIT, TIME_LIMIT,
    lemma_switch_direction_effects, spec_apply_effect, spec_check_bounce, spec_move,
    spec_switch_direction,
};
use crate::rng::{gen_range_i64, seed_rng};

verus! {

/// Speed every entity starts a round with.
pub const INIT_SPEED: i64 = 200;

/// The one-shot increment the speed-boost pickup grants.
pub const SPEED_BOOST: i64 = 100;

/// Score every entity starts a round with.
pub const INIT_SCORE: i64 = 10;

/// The sword spawns each frame with probability one in this many.
pub const SWORD_ODDS: i64 = 200;

/// Smallest viewport edge the arena can be derived from.
pub const MIN_VIEW: i64 = 100;

/// Largest viewport edge the arena can be derived from.
pub const VIEW_LIMIT: i64 = 10_000_000_000;

/// The discrete events one frame produces, for a presentation layer to
/// render or play.
#[derive(Clone, Copy, Debug, PartialEq, Eq, Structural)]
pub struct FrameEvents {
    /// A killer consumed its flag against the opponent's score.
    pub kill: bool,
    /// A wall pushed an entity back this frame.
    pub wall: bool,
    /// A placed power-up was caught and consumed.
    pub pickup: bool,
}

/// The whole simulation state.
pub struct World {
    pub entity1: Entity,
    pub entity2: Entity,
    pub sword: Weapon,
    pub rabbit: Weapon,
    pub width: i64,
    pub height: i64,
    /// The injected seedable random source.
    pub rng: rand::rngs::StdRng,
}

/// What one placement roll may do to a power-up: an already placed one is
/// untouched; an unplaced one either stays exactly as it was or appears
/// with its full box strictly inside the arena border.
pub open spec fn spawn_outcome(before: Weapon, after: Weapon, edges: Rect) -> bool {
    if before.is_placed {
        after == before
    } else {
        &&& after.kind == before.kind
        &&& after.size == before.size
        &&& (!after.is_placed ==> after == before)
        &&& (after.is_placed ==> {
            &&& edges.x + after.size <= after.x < edges.x + edges.w - after.size
            &&& edges.y + after.size <= after.y < edges.y + edges.h - after.size
        })
    }
}

/// One pickup pass: the first entity, then the second, may catch a placed
/// power-up; the first catch consumes the placement, so at most one effect
/// is applied per placement.
pub open spec fn spec_set_catchable(w: Weapon, e1: Entity, e2: Entity) -> (Weapon, Entity, Entity) {
    let caught1 = w.is_placed && spec_overlaps(e1.spec_rect(), w.spec_rect());
    let w1 = if caught1 {
        Weapon { is_placed: false, ..w }
    } else {
        w
    };
    let a1 = if caught1 {
        spec_apply_effect(w.kind, e1)
    } else {
        e1
    };
    let caught2 = w1.is_placed && spec_overlaps(e2.spec_rect(), w1.spec_rect());
    let w2 = if caught2 {
        Weapon { is_placed: false, ..w1 }
    } else {
        w1
    };
    let a2 = if caught2 {
        spec_apply_effect(w1.kind, e2)
    } else {
        e2
    };
    (w2, a1, a2)
}

/// One pickup pass over both entities.  The entities are tested in order;
/// a catch consumes the placement at once, so the later test is a no-op
/// for the same placement.  Returns whether the power-up was caught.
pub fn set_catchable(weapon: &mut Weapon, entity1: &mut Entity, entity2: &mut Entity) -> (caught:
    bool)
    requires
        old(weapon).in_calc_bounds(),
        old(weapon).kind_wf(),
        old(entity1).in_calc_bounds(),
        old(entity2).in_calc_bounds(),
        old(entity1).speed + BOOST_LIMIT <= i64::MAX,
        old(entity2).speed + BOOST_LIMIT <= i64::MAX,
    ensures
        ({
            let (w2, a1, a2) = spec_set_catchable(*old(weapon), *old(entity1), *old(entity2));
            *final(weapon) == w2 && *final(entity1) == a1 && *final(entity2) == a2
        }),
        caught == (old(weapon).is_placed && !final(weapon).is_placed),
{
    let mut caught = false;
    if weapon.is_placed && entity1.catch_weapon(weapon) {
        weapon.on_catch(entity1);
        caught = true;
    }
    if weapon.is_placed && entity2.catch_weapon(weapon) {
        weapon.on_catch(entity2);
        caught = true;
    }
    caught
}

/// Law: a pickup is single-use.  A pass over a power-up that is not placed
/// changes nothing, so a consumed placement cannot apply its effect again.
pub proof fn lemma_pickup_single_use(w: Weapon, e1: Entity, e2: Entity)
    requires
        !w.is_placed,
    ensures
        spec_set_catchable(w, e1, e2) == (w, e1, e2),
{
}

/// The derived box edges fit the arena in both dimensions, with room for
/// a power-up's spawn margin.
pub proof fn lemma_entity_size_fits(w: World)
    requires
        w.view_wf(),
    ensures
        1 <= w.spec_entity_size() <= SIZE_LIMIT,
        w.spec_entity_size() <= w.spec_edges().w,
        w.spec_entity_size() < w.spec_edges().h,
        2 * (w.spec_entity_size() / 2) < w.spec_edges().w,
        2 * (w.spec_entity_size() / 2) < w.spec_edges().h,
        0 <= w.spec_entity_size() / 2 <= SIZE_LIMIT,
        0 <= w.spec_edges().x,
        0 <= w.spec_edges().y,
        0 < w.spec_edges().w,
        0 < w.spec_edges().h,
        w.spec_edges().x + w.spec_edges().w <= VIEW_LIMIT,
        w.spec_edges().y + w.spec_edges().h <= VIEW_LIMIT,
{
    let wd = w.width as int;
    let h = w.height as int;
    let aw = wd * 8 / 10;
    let ah = h * 8 / 10;
    let es = aw / 10;
    assert(10 * aw <= 8 * wd);
    assert(10 * es <= aw);
    assert(10 * ah > 8 * h - 10);
    assert(100 * es <= 8 * wd <= 72 * h);
    assert(100 * ah > 80 * h - 100);
    assert(es < ah);
}

/// What one pickup pass can and cannot change: positions, sizes, names,
/// directions and scores are untouched; a speed grows by at most one
/// boost over the pair; killer state appears only from a placed
/// kill-granting power-up.
pub proof fn lemma_set_catchable_effects(w: Weapon, e1: Entity, e2: Entity)
    requires
        w.kind_wf(),
        e1.speed + BOOST_LIMIT <= i64::MAX,
        e2.speed + BOOST_LIMIT <= i64::MAX,
    ensures
        ({
            let (w2, a1, a2) = spec_set_catchable(w, e1, e2);
            &&& a1 == (Entity { speed: a1.speed, is_killer: a1.is_killer, ..e1 })
            &&& a2 == (Entity { speed: a2.speed, is_killer: a2.is_killer, ..e2 })
            &&& e1.speed <= a1.speed <= e1.speed + BOOST_LIMIT
            &&& e2.speed <= a2.speed <= e2.speed + BOOST_LIMIT
            &&& a1.speed + a2.speed <= e1.speed + e2.speed + BOOST_LIMIT
            &&& (w.kind is KillGrant ==> a1.speed == e1.speed && a2.speed == e2.speed)
            &&& (a1.is_killer ==> e1.is_killer || (w.is_placed && w.kind is KillGrant))
            &&& (a2.is_killer ==> e2.is_killer || (w.is_placed && w.kind is KillGrant))
            &&& (!(w.kind is KillGrant) ==> a1.is_killer == e1.is_killer && a2.is_killer
                == e2.is_killer)
            &&& w2 == (Weapon { is_placed: w2.is_placed, ..w })
            &&& (!w.is_placed ==> w2 == w && a1 == e1 && a2 == e2)
        }),
{
}

/// One placement roll: while not placed, with probability one in `odds`,
/// place the power-up at a uniform position whose box stays strictly
/// inside the arena border.
fn roll_spawn(weapon: &mut Weapon, odds: i64, edges: Rect, rng: &mut rand::rngs::StdRng)
    requires
        1 <= odds,
        0 <= edges.x,
        0 <= edges.y,
        0 < edges.w,
        0 < edges.h,
        edges.x + edges.w <= VIEW_LIMIT,
        edges.y + edges.h <= VIEW_LIMIT,
        0 <= old(weapon).size,
        2 * old(weapon).size < edges.w,
        2 * old(weapon).size < edges.h,
    ensures
        spawn_outcome(*old(weapon), *final(weapon), edges),
{
    if !weapon.is_placed {
        if gen_range_i64(rng, 0, odds) == 0 {
            weapon.is_placed = true;
            weapon.x = gen_range_i64(rng, edges.x + weapon.size, edges.x + edges.w - weapon.size);
            weapon.y = gen_range_i64(rng, edges.y + weapon.size, edges.y + edges.h - weapon.size);
        }
    }
}

impl World {
    /// The arena rectangle: a 10% margin on each side of the viewport,
    /// so the playfield is 80% of the viewport in each dimension.
    pub open spec fn spec_edges(self) -> Rect {
        Rect {
            x: (self.width as int / 10) as i64,
            y: (self.height as int / 10) as i64,
            w: (self.width as int * 8 / 10) as i64,
            h: (self.height as int * 8 / 10) as i64,
        }
    }

    /// Entity edge length: 10% of the arena width.
    pub open spec fn spec_entity_size(self) -> int {
        self.spec_edges().w as int / 10
    }

    /// The viewport the arena is derived from is within working bounds.
    /// Box edges are fractions of the arena width alone, so the width may
    /// not exceed nine heights: past that an entity would no longer fit
    /// between the top and bottom border.
    pub open spec fn view_wf(self) -> bool {
        &&& MIN_VIEW <= self.width <= VIEW_LIMIT
        &&& MIN_VIEW <= self.height <= VIEW_LIMIT
        &&& self.width <= 9 * self.height
    }

    /// What every frame needs of the state it starts from.
    pub open spec fn wf(self) -> bool {
        &&& self.view_wf()
        &&& 1 <= self.entity1.speed
        &&& 1 <= self.entity2.speed
        &&& -POS_LIMIT <= self.entity1.x <= POS_LIMIT
        &&& -POS_LIMIT <= self.entity1.y <= POS_LIMIT
        &&& -POS_LIMIT <= self.entity2.x <= POS_LIMIT
        &&& -POS_LIMIT <= self.entity2.y <= POS_LIMIT
        &&& 0 <= self.entity1.size <= SIZE_LIMIT
        &&& 0 <= self.entity2.size <= SIZE_LIMIT
        &&& -POS_LIMIT <= self.sword.x <= POS_LIMIT
        &&& -POS_LIMIT <= self.sword.y <= POS_LIMIT
        &&& -POS_LIMIT <= self.rabbit.x <= POS_LIMIT
        &&& -POS_LIMIT <= self.rabbit.y <= POS_LIMIT
        &&& 0 <= self.sword.size <= SIZE_LIMIT
        &&& 0 <= self.rabbit.size <= SIZE_LIMIT
        &&& self.sword.kind_wf()
        &&& self.rabbit.kind_wf()
        &&& self.sword.kind is KillGrant
        &&& self.rabbit.kind is SpeedBoost
    }

    /// The state after the per-frame size sync: entity boxes are a fixed
    /// fraction of the arena, power-up boxes half of that.
    pub open spec fn spec_sync_sizes(self) -> World {
        let es = self.spec_entity_size();
        World {
            entity1: Entity { size: es as i64, ..self.entity1 },
            entity2: Entity { size: es as i64, ..self.entity2 },
            sword: Weapon { size: (es / 2) as i64, ..self.sword },
            rabbit: Weapon { size: (es / 2) as i64, ..self.rabbit },
            ..self
        }
    }

    /// The state after the pickup phase: the sword pass runs first, then
    /// the speed boost pass on the already-updated entities.
    pub open spec fn spec_catch_phase(self) -> World {
        let (sw, a1, a2) = spec_set_catchable(self.sword, self.entity1, self.entity2);
        let (rb, b1, b2) = spec_set_catchable(self.rabbit, a1, a2);
        World { sword: sw, rabbit: rb, entity1: b1, entity2: b2, ..self }
    }

    /// The current arena bounds, for the simulation and for any renderer.
    pub fn edges(&self) -> (r: Rect)
        requires
            self.view_wf(),
        ensures
            r == self.spec_edges(),
            0 <= r.x,
            0 <= r.y,
            0 < r.w,
            0 < r.h,
            r.x + r.w <= VIEW_LIMIT,
            r.y + r.h <= VIEW_LIMIT,
    {
        Rect {
            x: self.width / 10,
            y: self.height / 10,
            w: self.width * 8 / 10,
            h: self.height * 8 / 10,
        }
    }

    /// The entity edge length derived from the current arena.
    pub fn entity_size(&self) -> (r: i64)
        requires
            self.view_wf(),
        ensures
            r == self.spec_entity_size(),
            1 <= r <= SIZE_LIMIT,
            2 * (r / 2) < self.spec_edges().w,
            2 * (r / 2) < self.spec_edges().h,
            r <= self.spec_edges().w,
            r <= self.spec_edges().h,
    {
        let e = self.edges();
        proof {
            lemma_entity_size_fits(*self);
        }
        e.w / 10
    }

    /// Point the arena at a new viewport; everything else is untouched.
    pub fn set_viewport(&mut self, width: i64, height: i64)
        requires
            MIN_VIEW <= width <= VIEW_LIMIT,
            MIN_VIEW <= height <= VIEW_LIMIT,
        ensures
            *final(self) == (World { width, height, ..*old(self) }),
    {
        self.width = width;
        self.height = height;
    }

    /// Recompute every box edge from the current arena, so entity and
    /// arena geometry never desynchronize within a frame.
    pub fn sync_sizes(&mut self)
        requires
            old(self).view_wf(),
        ensures
            *final(self) == old(self).spec_sync_sizes(),
    {
        let es = self.entity_size();
        self.entity1.size = es;
        self.entity2.size = es;
        self.sword.size = es / 2;
        self.rabbit.size = es / 2;
    }

    /// The pickup phase: each placed power-up may be caught by the first
    /// overlapping entity, in first-then-second order.  Returns whether
    /// any power-up was caught this frame.
    pub fn set_weapons_catchable(&mut self) -> (caught: bool)
        requires
            old(self).entity1.in_calc_bounds(),
            old(self).entity2.in_calc_bounds(),
            old(self).sword.in_calc_bounds(),
            old(self).rabbit.in_calc_bounds(),
            old(self).sword.kind_wf(),
            old(self).rabbit.kind_wf(),
            old(self).entity1.speed + 2 * BOOST_LIMIT <= i64::MAX,
            old(self).entity2.speed + 2 * BOOST_LIMIT <= i64::MAX,
        ensures
            *final(self) == old(self).spec_catch_phase(),
            caught == ((old(self).sword.is_placed && !final(self).sword.is_placed) || (old(
                self,
            ).rabbit.is_placed && !final(self).rabbit.is_placed)),
    {
        let mut caught = false;
        if self.sword.is_placed {
            if set_catchable(&mut self.sword, &mut self.entity1, &mut self.entity2) {
                caught = true;
            }
        }
        if self.rabbit.is_placed {
            if set_catchable(&mut self.rabbit, &mut self.entity1, &mut self.entity2) {
                caught = true;
            }
        }
        caught
    }

    /// The spawn phase: the sword rolls at fixed odds, and only while
    /// nobody is a killer; the speed boost rolls at odds that grow with
    /// the entities' average speed, a negative feedback on escalation.
    pub fn spawn_weapons(&mut self)
        requires
            old(self).view_wf(),
            1 <= old(self).entity1.speed <= SPEED_LIMIT + BOOST_LIMIT,
            1 <= old(self).entity2.speed <= SPEED_LIMIT + BOOST_LIMIT,
            0 <= old(self).sword.size,
            0 <= old(self).rabbit.size,
            2 * old(self).sword.size < old(self).spec_edges().w,
            2 * old(self).sword.size < old(self).spec_edges().h,
            2 * old(self).rabbit.size < old(self).spec_edges().w,
            2 * old(self).rabbit.size < old(self).spec_edges().h,
        ensures
            final(self).entity1 == old(self).entity1,
            final(self).entity2 == old(self).entity2,
            final(self).width == old(self).width,
            final(self).height == old(self).height,
            spawn_outcome(old(self).sword, final(self).sword, old(self).spec_edges()),
            spawn_outcome(old(self).rabbit, final(self).rabbit, old(self).spec_edges()),
            (old(self).entity1.is_killer || old(self).entity2.is_killer) ==> final(self).sword
                == old(self).sword,
    {
        let edges = self.edges();

        if !(self.entity1.is_killer || self.entity2.is_killer) {
            roll_spawn(&mut self.sword, SWORD_ODDS, edges, &mut self.rng);
        }
        let avg_speed = (self.entity1.speed + self.entity2.speed) / 2;
        roll_spawn(&mut self.rabbit, avg_speed, edges, &mut self.rng);
    }

    /// The movement phase: both entities advance, a colliding pair is
    /// resolved with the slower-or-equal entity as the initiating side,
    /// then each entity is clamped into the arena and bounce-checked.
    /// Returns whether a kill fired and whether a wall pushed back.
    #[verifier::rlimit(100)]
    pub fn update_entities(&mut self, elapsed: i64) -> (r: (bool, bool))
        requires
            old(self).view_wf(),
            0 <= elapsed <= TIME_LIMIT,
            1 <= old(self).entity1.speed <= SPEED_LIMIT + BOOST_LIMIT,
            1 <= old(self).entity2.speed <= SPEED_LIMIT + BOOST_LIMIT,
            -POS_LIMIT <= old(self).entity1.x <= POS_LIMIT,
            -POS_LIMIT <= old(self).entity1.y <= POS_LIMIT,
            -POS_LIMIT <= old(self).entity2.x <= POS_LIMIT,
            -POS_LIMIT <= old(self).entity2.y <= POS_LIMIT,
            0 <= old(self).entity1.size <= SIZE_LIMIT,
            0 <= old(self).entity2.size <= SIZE_LIMIT,
            old(self).entity1.size <= old(self).spec_edges().w,
            old(self).entity1.size <= old(self).spec_edges().h,
            old(self).entity2.size <= old(self).spec_edges().w,
            old(self).entity2.size <= old(self).spec_edges().h,
            old(self).entity1.score > i64::MIN,
            old(self).entity2.score > i64::MIN,
        ensures
            ({
                let (f1, f2, kill, wall) = spec_update_entities(
                    old(self).entity1,
                    old(self).entity2,
                    old(self).spec_edges(),
                    elapsed as int,
                );
                &&& final(self).entity1 == f1
                &&& final(self).entity2 == f2
                &&& r.0 == kill
                &&& r.1 == wall
            }),
            final(self).sword == old(self).sword,
            final(self).rabbit == old(self).rabbit,
            final(self).width == old(self).width,
            final(self).height == old(self).height,
            final(self).rng == old(self).rng,
    {
        let edges = self.edges();

        self.entity1.move_frame(elapsed);
        self.entity2.move_frame(elapsed);

        let mut kill = false;
        if self.entity1.collides_with(&self.entity2) {
            if self.entity1.speed <= self.entity2.speed {
                kill = self.entity1.switch_direction(&mut self.entity2);
            } else {
                kill = self.entity2.switch_direction(&mut self.entity1);
            }
        }

        let temp_e1_x = self.entity1.x;
        let temp_e1_y = self.entity1.y;
        self.entity1.x = clamp_i64(self.entity1.x, edges.x, edges.x + edges.w - self.entity1.size);
        self.entity1.y = clamp_i64(self.entity1.y, edges.y, edges.y + edges.h - self.entity1.size);
        self.entity1.check_bounce(temp_e1_x, temp_e1_y);

        let temp_e2_x = self.entity2.x;
        let temp_e2_y = self.entity2.y;
        self.entity2.x = clamp_i64(self.entity2.x, edges.x, edges.x + edges.w - self.entity2.size);
        self.entity2.y = clamp_i64(self.entity2.y, edges.y, edges.y + edges.h - self.entity2.size);
        self.entity2.check_bounce(temp_e2_x, temp_e2_y);

        let wall = self.entity1.x != temp_e1_x || self.entity1.y != temp_e1_y || self.entity2.x
            != temp_e2_x || self.entity2.y != temp_e2_y;

        (kill, wall)
    }

    /// One simulated frame, in the fixed order: size sync, pickup
    /// resolution, spawn rolls, movement, collision resolution, wall
    /// clamp and bounce.  Everything except the spawn rolls is an exact
    /// function of the starting state; the spawn rolls are pinned down to
    /// their possible outcomes.  Positioning a carried sword has no state
    /// effect: a renderer asks `Entity::attach_weapon` for it.  Called
    /// only while the round is running: both scores are still positive.
    #[verifier::rlimit(100)]
    pub fn update(&mut self, elapsed: i64) -> (ev: FrameEvents)
        requires
            old(self).wf(),
            0 <= elapsed <= TIME_LIMIT,
            old(self).entity1.speed <= SPEED_LIMIT,
            old(self).entity2.speed <= SPEED_LIMIT,
            old(self).entity1.score >= 1,
            old(self).entity2.score >= 1,
        ensures
            ({
                let mid = old(self).spec_sync_sizes().spec_catch_phase();
                let (f1, f2, kill, wall) = spec_update_entities(
                    mid.entity1,
                    mid.entity2,
                    old(self).spec_edges(),
                    elapsed as int,
                );
                &&& final(self).entity1 == f1
                &&& final(self).entity2 == f2
                &&& ev.kill == kill
                &&& ev.wall == wall
                &&& ev.pickup == ((old(self).sword.is_placed && !mid.sword.is_placed) || (old(
                    self,
                ).rabbit.is_placed && !mid.rabbit.is_placed))
                &&& spawn_outcome(mid.sword, final(self).sword, old(self).spec_edges())
                &&& spawn_outcome(mid.rabbit, final(self).rabbit, old(self).spec_edges())
                &&& ((mid.entity1.is_killer || mid.entity2.is_killer) ==> final(self).sword
                    == mid.sword)
            }),
            final(self).width == old(self).width,
            final(self).height == old(self).height,
            final(self).wf(),
            // scores can only fall, by at most one point over the pair
            old(self).entity1.score - 1 <= final(self).entity1.score <= old(self).entity1.score,
            old(self).entity2.score - 1 <= final(self).entity2.score <= old(self).entity2.score,
            final(self).entity1.score + final(self).entity2.score >= old(self).entity1.score + old(
                self,
            ).entity2.score - 1,
            ev.kill == (final(self).entity1.score + final(self).entity2.score < old(
                self,
            ).entity1.score + old(self).entity2.score),
            // speeds never fall, and grow by at most one boost
            old(self).entity1.speed <= final(self).entity1.speed <= old(self).entity1.speed
                + BOOST_LIMIT,
            old(self).entity2.speed <= final(self).entity2.speed <= old(self).entity2.speed
                + BOOST_LIMIT,
            // killer state appears only from a placed sword
            ((final(self).entity1.is_killer || final(self).entity2.is_killer) ==> (old(
                self,
            ).entity1.is_killer || old(self).entity2.is_killer || old(self).sword.is_placed)),
            // both entities end the frame inside the arena
            old(self).spec_edges().x <= final(self).entity1.x,
            final(self).entity1.x + final(self).entity1.size <= old(self).spec_edges().x + old(
                self,
            ).spec_edges().w,
            old(self).spec_edges().y <= final(self).entity1.y,
            final(self).entity1.y + final(self).entity1.size <= old(self).spec_edges().y + old(
                self,
            ).spec_edges().h,
            old(self).spec_edges().x <= final(self).entity2.x,
            final(self).entity2.x + final(self).entity2.size <= old(self).spec_edges().x + old(
                self,
            ).spec_edges().w,
            old(self).spec_edges().y <= final(self).entity2.y,
            final(self).entity2.y + final(self).entity2.size <= old(self).spec_edges().y + old(
                self,
            ).spec_edges().h,
            final(self).entity1.name == old(self).entity1.name,
            final(self).entity2.name == old(self).entity2.name,
            final(self).entity1.size == old(self).spec_sync_sizes().entity1.size,
            final(self).entity2.size == old(self).spec_sync_sizes().entity2.size,
            final(self).sword.kind == old(self).sword.kind,
            final(self).rabbit.kind == old(self).rabbit.kind,
    {
        proof {
            lemma_entity_size_fits(*old(self));
            lemma_catch_phase_summary(*old(self));
            let mid = old(self).spec_sync_sizes().spec_catch_phase();
            lemma_move_phase_summary(
                mid.entity1,
                mid.entity2,
                old(self).spec_edges(),
                elapsed as int,
            );
        }
        self.sync_sizes();
        let pickup = self.set_weapons_catchable();
        self.spawn_weapons();
        let (kill, wall) = self.update_entities(elapsed);
        FrameEvents { kill, wall, pickup }
    }

    /// A uniform start position whose entity box lies inside the arena.
    fn get_entity_start(&mut self) -> (pos: (i64, i64))
        requires
            old(self).view_wf(),
        ensures
            final(self).entity1 == old(self).entity1,
            final(self).entity2 == old(self).entity2,
            final(self).sword == old(self).sword,
            final(self).rabbit == old(self).rabbit,
            final(self).width == old(self).width,
            final(self).height == old(self).height,
            old(self).spec_edges().x <= pos.0,
            pos.0 + old(self).spec_entity_size() <= old(self).spec_edges().x + old(
                self,
            ).spec_edges().w,
            old(self).spec_edges().y <= pos.1,
            pos.1 + old(self).spec_entity_size() <= old(self).spec_edges().y + old(
                self,
            ).spec_edges().h,
    {
        let edges = self.edges();
        let entity_size = self.entity_size();
        let start_x = gen_range_i64(&mut self.rng, edges.x, edges.x + edges.w - entity_size);
        let start_y = gen_range_i64(&mut self.rng, edges.y, edges.y + edges.h - entity_size);

        (start_x, start_y)
    }

    /// A fresh actor with the starting speed and score, random directions,
    /// and geometry still unset: the first frame derives it from the arena.
    fn generate_entity(name: String, rng: &mut rand::rngs::StdRng) -> (e: Entity)
        ensures
            e.name == name,
            e.size == 0,
            e.speed == INIT_SPEED,
            e.x == 0,
            e.y == 0,
            e.score == INIT_SCORE,
            !e.is_killer,
    {
        let direction_x = Direction::random(rng);
        let direction_y = Direction::random(rng);
        Entity {
            name,
            size: 0,
            speed: INIT_SPEED,
            direction_x,
            direction_y,
            x: 0,
            y: 0,
            score: INIT_SCORE,
            is_killer: false,
        }
    }

    /// A fresh, not yet placed power-up of the given kind.
    fn generate_weapon(kind: WeaponKind) -> (w: Weapon)
        ensures
            w.size == 0,
            w.x == 0,
            w.y == 0,
            !w.is_placed,
            w.kind == kind,
    {
        Weapon { size: 0, x: 0, y: 0, is_placed: false, kind }
    }

    /// Drop both entities at random start positions, then run one
    /// zero-time frame so that sizes and geometry are settled.
    fn init(&mut self)
        requires
            old(self).wf(),
            old(self).entity1.speed == INIT_SPEED,
            old(self).entity2.speed == INIT_SPEED,
            old(self).entity1.score == INIT_SCORE,
            old(self).entity2.score == INIT_SCORE,
            !old(self).entity1.is_killer,
            !old(self).entity2.is_killer,
            !old(self).sword.is_placed,
            !old(self).rabbit.is_placed,
        ensures
            final(self).wf(),
            final(self).entity1.speed == INIT_SPEED,
            final(self).entity2.speed == INIT_SPEED,
            final(self).entity1.score == INIT_SCORE,
            final(self).entity2.score == INIT_SCORE,
            !final(self).entity1.is_killer,
            !final(self).entity2.is_killer,
            final(self).entity1.name == old(self).entity1.name,
            final(self).entity2.name == old(self).entity2.name,
            final(self).sword.kind == old(self).sword.kind,
            final(self).rabbit.kind == old(self).rabbit.kind,
            final(self).width == old(self).width,
            final(self).height == old(self).height,
            final(self).entity1.size == final(self).spec_entity_size() as i64,
            final(self).entity2.size == final(self).spec_entity_size() as i64,
            old(self).spec_edges().x <= final(self).entity1.x,
            final(self).entity1.x + final(self).entity1.size <= old(self).spec_edges().x + old(
                self,
            ).spec_edges().w,
            old(self).spec_edges().y <= final(self).entity1.y,
            final(self).entity1.y + final(self).entity1.size <= old(self).spec_edges().y + old(
                self,
            ).spec_edges().h,
            old(self).spec_edges().x <= final(self).entity2.x,
            final(self).entity2.x + final(self).entity2.size <= old(self).spec_edges().x + old(
                self,
            ).spec_edges().w,
            old(self).spec_edges().y <= final(self).entity2.y,
            final(self).entity2.y + final(self).entity2.size <= old(self).spec_edges().y + old(
                self,
            ).spec_edges().h,
    {
        let (x1, y1) = self.get_entity_start();
        self.entity1.x = x1;
        self.entity1.y = y1;
        let (x2, y2) = self.get_entity_start();
        self.entity2.x = x2;
        self.entity2.y = y2;

        let _events = self.update(0);
    }

    /// A whole round's starting state: two entities at random positions
    /// inside the arena derived from the given viewport, the sword and
    /// the speed-boost power-up still unplaced, and the random source
    /// seeded with the given value so a round can be reproduced.
    pub fn new(width: i64, height: i64, seed: u64) -> (w: World)
        requires
            MIN_VIEW <= width <= VIEW_LIMIT,
            MIN_VIEW <= height <= VIEW_LIMIT,
            width <= 9 * height,
        ensures
            w.wf(),
            w.width == width,
            w.height == height,
            w.entity1.speed == INIT_SPEED,
            w.entity2.speed == INIT_SPEED,
            w.entity1.score == INIT_SCORE,
            w.entity2.score == INIT_SCORE,
            !w.entity1.is_killer,
            !w.entity2.is_killer,
            w.entity1.name@ == "Ronaldo"@,
            w.entity2.name@ == "Messi"@,
            w.sword.kind == WeaponKind::KillGrant,
            w.rabbit.kind == WeaponKind::SpeedBoost(SPEED_BOOST),
            w.entity1.size == w.spec_entity_size() as i64,
            w.entity2.size == w.spec_entity_size() as i64,
            w.spec_edges().x <= w.entity1.x,
            w.entity1.x + w.entity1.size <= w.spec_edges().x + w.spec_edges().w,
            w.spec_edges().y <= w.entity1.y,
            w.entity1.y + w.entity1.size <= w.spec_edges().y + w.spec_edges().h,
            w.spec_edges().x <= w.entity2.x,
            w.entity2.x + w.entity2.size <= w.spec_edges().x + w.spec_edges().w,
            w.spec_edges().y <= w.entity2.y,
            w.entity2.y + w.entity2.size <= w.spec_edges().y + w.spec_edges().h,
    {
        let mut rng = seed_rng(seed);
        let entity1 = Self::generate_entity("Ronaldo".to_owned(), &mut rng);
        let entity2 = Self::generate_entity("Messi".to_owned(), &mut rng);
        let sword = Self::generate_weapon(WeaponKind::KillGrant);
        let rabbit = Self::generate_weapon(WeaponKind::SpeedBoost(SPEED_BOOST));
        let mut world = World { entity1, entity2, sword, rabbit, width, height, rng };
        world.init();

        world
    }
}

/// Law: the wall reflects.  An entity travelling in the positive
/// direction whose unclamped position overshot the far edge is pulled
/// back by the clamp, the bounce check flips its direction to negative,
/// and one more frame of travel moves it away from that edge, never past
/// it again.
pub proof fn lemma_bounce_reflects_at_boundary(e: Entity, edges: Rect, t: int)
    requires
        e.direction_x is Pos,
        0 <= e.size <= edges.w,
        e.size <= edges.h,
        0 <= edges.x,
        0 <= edges.y,
        edges.x + edges.w <= VIEW_LIMIT,
        edges.y + edges.h <= VIEW_LIMIT,
        e.x > edges.x + edges.w - e.size,
        0 <= t <= TIME_LIMIT,
        1 <= e.speed <= SPEED_LIMIT + BOOST_LIMIT,
        -POS_LIMIT <= e.x <= POS_LIMIT,
        -POS_LIMIT <= e.y <= POS_LIMIT,
    ensures
        ({
            let bounced = spec_clamp_bounce(e, edges);
            &&& bounced.direction_x is Neg
            &&& bounced.x == edges.x + edges.w - e.size
            &&& spec_move(bounced, t).x <= bounced.x
            &&& (t >= 1 ==> spec_move(bounced, t).x < bounced.x)
        }),
{
    let bounced = spec_clamp_bounce(e, edges);
    assert(1 * e.speed as int * t == e.speed as int * t) by (nonlinear_arith);
    assert((-1) * e.speed as int * t == -(e.speed as int * t)) by (nonlinear_arith);
    assert(e.speed as int * t >= t) by (nonlinear_arith)
        requires
            1 <= e.speed as int,
            0 <= t,
    ;
    assert(e.speed as int * t <= (SPEED_LIMIT + BOOST_LIMIT) as int * TIME_LIMIT as int)
        by (nonlinear_arith)
        requires
            1 <= e.speed as int <= (SPEED_LIMIT + BOOST_LIMIT) as int,
            0 <= t <= TIME_LIMIT as int,
    ;
}

/// What the size sync and the pickup phase together can do to a frame's
/// starting state: geometry is refreshed, scores and positions stand
/// still, speeds may take at most one boost, and killer state can appear
/// only from a placed sword.
pub proof fn lemma_catch_phase_summary(w: World)
    requires
        w.wf(),
        w.entity1.speed <= SPEED_LIMIT,
        w.entity2.speed <= SPEED_LIMIT,
    ensures
        ({
            let mid = w.spec_sync_sizes().spec_catch_phase();
            let es = w.spec_entity_size();
            &&& mid.entity1.x == w.entity1.x && mid.entity1.y == w.entity1.y
            &&& mid.entity2.x == w.entity2.x && mid.entity2.y == w.entity2.y
            &&& mid.entity1.score == w.entity1.score && mid.entity2.score == w.entity2.score
            &&& mid.entity1.name == w.entity1.name && mid.entity2.name == w.entity2.name
            &&& mid.entity1.size == es as i64 && mid.entity2.size == es as i64
            &&& w.entity1.speed <= mid.entity1.speed <= w.entity1.speed + BOOST_LIMIT
            &&& w.entity2.speed <= mid.entity2.speed <= w.entity2.speed + BOOST_LIMIT
            &&& mid.entity1.speed + mid.entity2.speed <= w.entity1.speed + w.entity2.speed
                + BOOST_LIMIT
            &&& (mid.entity1.is_killer ==> w.entity1.is_killer || w.sword.is_placed)
            &&& (mid.entity2.is_killer ==> w.entity2.is_killer || w.sword.is_placed)
            &&& mid.sword.size == (es / 2) as i64 && mid.rabbit.size == (es / 2) as i64
            &&& mid.sword.kind == w.sword.kind && mid.rabbit.kind == w.rabbit.kind
            &&& mid.sword.x == w.sword.x && mid.sword.y == w.sword.y
            &&& mid.rabbit.x == w.rabbit.x && mid.rabbit.y == w.rabbit.y
            &&& mid.width == w.width && mid.height == w.height
            &&& mid.wf()
        }),
{
    lemma_entity_size_fits(w);
    let mid1 = w.spec_sync_sizes();
    lemma_set_catchable_effects(mid1.sword, mid1.entity1, mid1.entity2);
    let (sw, a1, a2) = spec_set_catchable(mid1.sword, mid1.entity1, mid1.entity2);
    lemma_set_catchable_effects(mid1.rabbit, a1, a2);
}

/// What the movement phase can do: sizes, names and speeds stand still,
/// at most one score point moves and only on a kill, killer state is
/// never granted, and both entities end inside the arena.
pub proof fn lemma_move_phase_summary(e1: Entity, e2: Entity, edges: Rect, t: int)
    requires
        0 <= t <= TIME_LIMIT,
        1 <= e1.speed <= SPEED_LIMIT + BOOST_LIMIT,
        1 <= e2.speed <= SPEED_LIMIT + BOOST_LIMIT,
        -POS_LIMIT <= e1.x <= POS_LIMIT,
        -POS_LIMIT <= e1.y <= POS_LIMIT,
        -POS_LIMIT <= e2.x <= POS_LIMIT,
        -POS_LIMIT <= e2.y <= POS_LIMIT,
        0 <= e1.size <= SIZE_LIMIT,
        0 <= e2.size <= SIZE_LIMIT,
        e1.size <= edges.w,
        e1.size <= edges.h,
        e2.size <= edges.w,
        e2.size <= edges.h,
        e1.score > i64::MIN,
        e2.score > i64::MIN,
        0 <= edges.x,
        0 <= edges.y,
        edges.x + edges.w <= VIEW_LIMIT,
        edges.y + edges.h <= VIEW_LIMIT,
    ensures
        ({
            let (f1, f2, kill, wall) = spec_update_entities(e1, e2, edges, t);
            &&& e1.score - 1 <= f1.score <= e1.score
            &&& e2.score - 1 <= f2.score <= e2.score
            &&& f1.score + f2.score >= e1.score + e2.score - 1
            &&& kill == (f1.score + f2.score < e1.score + e2.score)
            &&& (kill ==> e1.is_killer || e2.is_killer)
            &&& f1.speed == e1.speed && f2.speed == e2.speed
            &&& f1.size == e1.size && f2.size == e2.size
            &&& f1.name == e1.name && f2.name == e2.name
            &&& (f1.is_killer ==> e1.is_killer) && (f2.is_killer ==> e2.is_killer)
            &&& edges.x <= f1.x && f1.x + f1.size <= edges.x + edges.w
            &&& edges.y <= f1.y && f1.y + f1.size <= edges.y + edges.h
            &&& edges.x <= f2.x && f2.x + f2.size <= edges.x + edges.w
            &&& edges.y <= f2.y && f2.y + f2.size <= edges.y + edges.h
        }),
{
    let m1 = spec_move(e1, t);
    let m2 = spec_move(e2, t);
    lemma_switch_direction_effects(m1, m2);
    lemma_switch_direction_effects(m2, m1);
    let cres = if spec_overlaps(m1.spec_rect(), m2.spec_rect()) {
        if m1.speed <= m2.speed {
            spec_switch_direction(m1, m2)
        } else {
            let (b, a, k) = spec_switch_direction(m2, m1);
            (a, b, k)
        }
    } else {
        (m1, m2, false)
    };
    lemma_clamp_bounce_in_arena(cres.0, edges);
    lemma_clamp_bounce_in_arena(cres.1, edges);
}

/// The entity after the wall phase: each axis clamped into the arena,
/// then the bounce inferred from the clamp's effect.
pub open spec fn spec_clamp_bounce(e: Entity, edges: Rect) -> Entity {
    let cx = spec_clamp(e.x as int, edges.x as int, edges.x + edges.w - e.size);
    let cy = spec_clamp(e.y as int, edges.y as int, edges.y + edges.h - e.size);
    spec_check_bounce(Entity { x: cx as i64, y: cy as i64, ..e }, e.x as int, e.y as int)
}

/// The wall phase only moves an entity into the arena and may flip its
/// directions; everything else is untouched.
pub proof fn lemma_clamp_bounce_in_arena(e: Entity, edges: Rect)
    requires
        0 <= e.size <= edges.w,
        e.size <= edges.h,
        0 <= edges.x,
        0 <= edges.y,
        edges.x + edges.w <= VIEW_LIMIT,
        edges.y + edges.h <= VIEW_LIMIT,
    ensures
        ({
            let f = spec_clamp_bounce(e, edges);
            &&& f == (Entity {
                x: f.x,
                y: f.y,
                direction_x: f.direction_x,
                direction_y: f.direction_y,
                ..e
            })
            &&& edges.x <= f.x && f.x + e.size <= edges.x + edges.w
            &&& edges.y <= f.y && f.y + e.size <= edges.y + edges.h
        }),
{
}

/// One whole movement phase: move both entities, resolve a collision with
/// the slower-or-equal entity as the initiating side, then clamp and
/// bounce each entity against the arena border.  The two booleans are the
/// kill and wall events of the frame.
pub open spec fn spec_update_entities(e1: Entity, e2: Entity, edges: Rect, t: int) -> (
    Entity,
    Entity,
    bool,
    bool,
) {
    let m1 = spec_move(e1, t);
    let m2 = spec_move(e2, t);
    let (c1, c2, kill) = if spec_overlaps(m1.spec_rect(), m2.spec_rect()) {
        if m1.speed <= m2.speed {
            spec_switch_direction(m1, m2)
        } else {
            let (b, a, k) = spec_switch_direction(m2, m1);
            (a, b, k)
        }
    } else {
        (m1, m2, false)
    };
    let f1 = spec_clamp_bounce(c1, edges);
    let f2 = spec_clamp_bounce(c2, edges);
    let wall = f1.x != c1.x || f1.y != c1.y || f2.x != c2.x || f2.y != c2.y;
    (f1, f2, kill, wall)
}

} // verus!
