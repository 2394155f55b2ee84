use vstd::prelude::*;

use crate::actor::Entity;
use crate::effect_application::{flat_map, lemma_flat_map_take, lemma_flat_map_all};
use crate::float::{Float, spec_zero, spec_one, zero, one};

verus! {

/// A two-dimensional vector.
#[derive(Clone, Copy, Debug)]
pub struct Vec2 {
    pub x: Float,
    pub y: Float,
}

impl Vec2 {
    pub open spec fn spec_zero() -> Vec2 {
        Vec2 { x: spec_zero(), y: spec_zero() }
    }

    /// The zero vector.
    pub fn zero() -> (r: Vec2)
        ensures r == Vec2::spec_zero(),
    {
        Vec2 { x: crate::float::zero(), y: crate::float::zero() }
    }
}

/// The position of an entity in the world.
#[derive(Clone, Copy, Debug)]
pub struct Position(pub Vec2);

/// An orientation about the z-axis, in radians.
#[derive(Clone, Copy, Debug)]
pub struct Orientation(pub Float);

#[derive(Clone, Copy, Debug)]
pub struct Velocity(pub Vec2);

#[derive(Clone, Copy, Debug)]
pub struct VelocityDamping(pub Float);

/// Marks an entity that is to be removed from the world.
#[derive(Clone, Copy, Debug)]
pub struct Dead;

/// The time in seconds an entity has left before it is removed.
#[derive(Clone, Copy, Debug)]
pub struct Lifetime(pub Float);


/// A push an entity is receiving: `velocity` scaled over time by the
/// control points (each a fraction of the velocity).
#[derive(Clone, Copy, Debug)]
pub struct Knockback {
    pub velocity: Vec2,
    pub control_points: [Float; 3],
    pub time_remaining: Float,
    pub total_time: Float,
}

/// The control points of a push at constant strength: 1.0 throughout.
pub fn default_control_points() -> (r: [Float; 3])
    ensures
        r@ == seq![spec_one(), spec_one(), spec_one()],
{
    let r = [one(), one(), one()];
    assert(r@ =~= seq![spec_one(), spec_one(), spec_one()]);
    r
}

impl Default for Knockback {
    /// No push: everything zero.
    fn default() -> (r: Self)
        ensures
            r.velocity == Vec2::spec_zero(),
            r.control_points@ == seq![spec_zero(), spec_zero(), spec_zero()],
            r.time_remaining == spec_zero(),
            r.total_time == spec_zero(),
    {
        let r = Knockback {
            velocity: Vec2::zero(),
            control_points: [zero(), zero(), zero()],
            time_remaining: zero(),
            total_time: zero(),
        };
        assert(r.control_points@ =~= seq![spec_zero(), spec_zero(), spec_zero()]);
        r
    }
}

impl Knockback {
    /// A push lasting `duration` seconds, all of it still to come.
    pub fn new(velocity: Vec2, duration: Float, control_points: [Float; 3]) -> (r: Self)
        ensures
            r == (Knockback { velocity, control_points, time_remaining: duration, total_time: duration }),
    {
        Self { velocity, control_points, time_remaining: duration, total_time: duration }
    }

    /// Whether the push is still under way: time remains of a push that lasts some time.
    pub fn has_knockback(&self) -> (r: bool)
        ensures
            r == (spec_zero().spec_lt(self.time_remaining) && spec_zero().spec_lt(self.total_time)),
    {
        zero().less_than(&self.time_remaining) && zero().less_than(&self.total_time)
    }
}

/// The direction a player asked to move in.
#[derive(Clone, Copy, Debug)]
pub struct MoveDirection(pub Vec2);

/// Marks a locally predicted entity that waits for its counterpart from the
/// server; it is destroyed if none arrives within `remaining_time` seconds.
#[derive(Clone, Copy, Debug)]
pub struct DestroyIfNoMatchWithin {
    pub remaining_time: Float,
}

/// 0.15, in single precision.
pub open spec fn spec_default_match_wait() -> Float {
    Float { bits: 0x3e19_999a }
}

impl Default for DestroyIfNoMatchWithin {
    /// Waits 0.15 seconds.
    fn default() -> (r: Self)
        ensures r.remaining_time == spec_default_match_wait(),
    {
        Self { remaining_time: Float::new(0x3e19_999a) }
    }
}

/// What becomes of a locally predicted entity this frame.
#[derive(Clone, Copy, Debug, PartialEq, Eq, Structural)]
pub enum MatchOutcome {
    /// Its counterpart from the server has arrived: it stops waiting.
    Matched,
    /// Its time ran out: it is destroyed.
    Expired,
    /// It waits on.
    Waiting,
}

/// What becomes of a predicted entity whose time left, this frame's time
/// taken off, is in `seeker`; `matched` tells whether its counterpart from
/// the server has arrived. A match wins; else the entity expires once its
/// time left is at most zero (a NaN never is).
pub fn c_destroy_entites_without_match(seeker: &DestroyIfNoMatchWithin, matched: bool) -> (r: MatchOutcome)
    ensures
        matched ==> r == MatchOutcome::Matched,
        !matched && seeker.remaining_time.spec_le(spec_zero()) ==> r == MatchOutcome::Expired,
        !matched && !seeker.remaining_time.spec_le(spec_zero()) ==> r == MatchOutcome::Waiting,
{
    if matched {
        MatchOutcome::Matched
    } else if seeker.remaining_time.less_or_equal(&zero()) {
        MatchOutcome::Expired
    } else {
        MatchOutcome::Waiting
    }
}

/// Whether a thing whose lifetime left, this frame's time taken off, is
/// `lifetime` dies now: once that time is not above zero (NaN included).
pub fn s_update_and_destroy_lifetimes(lifetime: &Lifetime) -> (r: bool)
    ensures
        r == !spec_zero().spec_lt(lifetime.0),
{
    !zero().less_than(&lifetime.0)
}


/// Whether an actor with this health value dies: one with a health stat that
/// is not above zero does (NaN included); one without a health stat does not.
pub open spec fn health_is_depleted(health: Option<Float>) -> bool {
    health is Some && !spec_zero().spec_lt(health->0)
}

/// The actors to mark dead, in order: those whose health is depleted.
/// `health_havers` pairs each living actor with its health stat, if any.
pub fn s_kill_zero_healths(health_havers: &Vec<(Entity, Option<Float>)>) -> (dead: Vec<Entity>)
    ensures
        dead@ == flat_map(health_havers@, |p: (Entity, Option<Float>)| if health_is_depleted(p.1) { seq![p.0] } else { Seq::empty() }),
{
    let ghost f = |p: (Entity, Option<Float>)| if health_is_depleted(p.1) { seq![p.0] } else { Seq::<Entity>::empty() };
    let mut dead: Vec<Entity> = Vec::new();
    let mut i: usize = 0;
    assert(health_havers@.take(0) =~= Seq::<(Entity, Option<Float>)>::empty());
    while i < health_havers.len()
        invariant
            i <= health_havers@.len(),
            f == (|p: (Entity, Option<Float>)| if health_is_depleted(p.1) { seq![p.0] } else { Seq::<Entity>::empty() }),
            dead@ == flat_map(health_havers@.take(i as int), f),
        decreases health_havers@.len() - i,
    {
        proof { lemma_flat_map_take(health_havers@, f, i as int); }
        let ghost d0 = dead@;
        let (entity, health) = health_havers[i];
        match health {
            Some(h) => {
                if !zero().less_than(&h) {
                    dead.push(entity);
                }
            },
            None => {},
        }
        assert(dead@ =~= d0 + f(health_havers@[i as int]));
        i = i + 1;
    }
    proof { lemma_flat_map_all(health_havers@, f); }
    dead
}


/// The rectangle players are kept in.
#[derive(Clone, Copy, Debug)]
pub struct Bounds {
    pub min: Vec2,
    pub max: Vec2,
}

/// A coordinate kept between `low` and `high`: raised to `low`, then
/// lowered to `high`, each ignoring NaN.
pub open spec fn restricted(x: Float, low: Float, high: Float) -> Float {
    x.spec_max_num(low).spec_min_num(high)
}

/// Keeps a player's position inside `bounds`.
pub fn cs_restrict_players_to_bounds(position: &mut Position, bounds: &Bounds)
    ensures
        final(position).0.x == restricted(old(position).0.x, bounds.min.x, bounds.max.x),
        final(position).0.y == restricted(old(position).0.y, bounds.min.y, bounds.max.y),
{
    let x = position.0.x.max(&bounds.min.x).min(&bounds.max.x);
    let y = position.0.y.max(&bounds.min.y).min(&bounds.max.y);
    position.0 = Vec2 { x, y };
}

/// A position inside the bounds (each coordinate a number between them)
/// stays where it is.
pub proof fn lemma_inside_bounds_unchanged(p: Vec2, bounds: Bounds)
    requires
        bounds.min.x.spec_le(p.x) && p.x.spec_le(bounds.max.x),
        bounds.min.y.spec_le(p.y) && p.y.spec_le(bounds.max.y),
    ensures
        restricted(p.x, bounds.min.x, bounds.max.x).spec_eq(p.x),
        restricted(p.y, bounds.min.y, bounds.max.y).spec_eq(p.y),
{
}

} // verus!
