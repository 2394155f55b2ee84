use vstd::prelude::*;

use crate::actor::{DamageEvent, Entity};
use crate::common::Vec2;
use crate::deaths::{find, first_index, lemma_first_index};
use crate::float::Float;

verus! {

/// How damage pushes what it hits.
#[derive(Clone, Copy, Debug)]
pub enum DamageKnockback {
    /// Push in a direction.
    Impulse(Vec2),
    /// Push away from a point (in world space).
    Repulsion { center: Vec2, strength: Float },
    /// Pull towards a point (in world space).
    Attraction { center: Vec2, strength: Float },
    /// Push away from the damaging object itself.
    RepulsionFromSelf { strength: Float },
}

/// Damage carried by a projectile, explosion, laser or melee attack.
#[derive(Clone, Copy, Debug)]
pub struct Damage {
    pub damage: Float,
    pub destroy_on_damage: bool,
    pub deal_damage_once: bool,
    pub knockback: Option<DamageKnockback>,
    pub did_damage: bool,
}

impl Damage {
    pub fn new(damage: Float, destroy_on_damage: bool, deal_damage_once: bool, knockback: Option<DamageKnockback>) -> (r: Self)
        ensures
            r == (Damage { damage, destroy_on_damage, deal_damage_once, knockback, did_damage: false }),
    {
        Self { damage, destroy_on_damage, deal_damage_once, knockback, did_damage: false }
    }

    /// Whether the damaging object is destroyed when it does damage.
    pub fn should_destroy(&self) -> (r: bool)
        ensures r == self.destroy_on_damage,
    {
        self.destroy_on_damage
    }

    /// A bullet: destroyed on its first hit, which is the only one it damages.
    pub fn new_typical_bullet(damage: Float) -> (r: Self)
        ensures
            r == (Damage { damage, destroy_on_damage: true, deal_damage_once: true, knockback: None, did_damage: false }),
    {
        Self { damage, destroy_on_damage: true, deal_damage_once: true, knockback: None, did_damage: false }
    }

    /// An explosion: damages everything it touches and is not destroyed by it.
    pub fn new_typical_explosion(damage: Float) -> (r: Self)
        ensures
            r == (Damage { damage, destroy_on_damage: false, deal_damage_once: false, knockback: None, did_damage: false }),
    {
        Self { damage, destroy_on_damage: false, deal_damage_once: false, knockback: None, did_damage: false }
    }

    /// A laser: damages everything it touches and is not destroyed by it.
    pub fn new_typical_laser(damage: Float) -> (r: Self)
        ensures
            r == (Damage { damage, destroy_on_damage: false, deal_damage_once: false, knockback: None, did_damage: false }),
    {
        Self { damage, destroy_on_damage: false, deal_damage_once: false, knockback: None, did_damage: false }
    }

    /// A hitscan attack: damages one target and is not destroyed by it.
    pub fn new_typical_hitscan(damage: Float) -> (r: Self)
        ensures
            r == (Damage { damage, destroy_on_damage: false, deal_damage_once: true, knockback: None, did_damage: false }),
    {
        Self { damage, destroy_on_damage: false, deal_damage_once: true, knockback: None, did_damage: false }
    }

    pub fn with_destroy_on_damage(&mut self, destroy_on_damage: bool) -> (r: &mut Self)
        ensures
            *r == (Damage { destroy_on_damage, ..*old(self) }),
            *final(self) == *final(r),
    {
        self.destroy_on_damage = destroy_on_damage;
        self
    }

    pub fn with_knockback(&mut self, knockback: Option<DamageKnockback>) -> (r: &mut Self)
        ensures
            *r == (Damage { knockback, ..*old(self) }),
            *final(self) == *final(r),
    {
        self.knockback = knockback;
        self
    }
}


/// The most rounds of damage events handled in one frame.
pub const MAX_DAMAGE_ROUNDS: u32 = 10;

/// Whether the damage events of a frame get another round: while either of
/// the two lists that events pass between holds some, for at most
/// `MAX_DAMAGE_ROUNDS` rounds.
pub fn another_damage_round(first_pending: bool, second_pending: bool, rounds_done: u32) -> (r: bool)
    ensures
        r == ((first_pending || second_pending) && rounds_done < MAX_DAMAGE_ROUNDS),
{
    (first_pending || second_pending) && rounds_done < MAX_DAMAGE_ROUNDS
}

/// Which actors a damage event acts on.
#[derive(Clone, Copy, Debug, PartialEq, Eq, Structural)]
pub enum DamageRoute {
    /// The instigator damages (or heals) itself; the actor's index.
    SelfDamage(usize),
    /// The instigator damages another actor; their indices.
    Between(usize, usize),
    /// An actor of the event is missing: the event is skipped.
    Skip,
}

/// Which actors of `actors` (entities) a damage event acts on: for damage an
/// actor deals itself, that actor; else the instigator and the victim, both
/// of which must be there.
pub open spec fn damage_route(event: DamageEvent, actors: Seq<Entity>) -> DamageRoute {
    if event.instigator == event.victim {
        match first_index(actors, event.instigator) {
            Some(i) => DamageRoute::SelfDamage(i as usize),
            None => DamageRoute::Skip,
        }
    } else {
        match (first_index(actors, event.instigator), first_index(actors, event.victim)) {
            (Some(i), Some(v)) => DamageRoute::Between(i as usize, v as usize),
            _ => DamageRoute::Skip,
        }
    }
}

/// Finds which actors a damage event acts on.
pub fn route_damage_event(event: &DamageEvent, actors: &Vec<Entity>) -> (r: DamageRoute)
    ensures
        r == damage_route(*event, actors@),
        r matches DamageRoute::SelfDamage(i) ==> i < actors@.len(),
        r matches DamageRoute::Between(i, v) ==> i < actors@.len() && v < actors@.len() && i != v,
{
    if event.instigator == event.victim {
        match find(actors, event.instigator) {
            Some(i) => {
                proof { lemma_first_index(actors@, event.instigator, i as int); }
                DamageRoute::SelfDamage(i)
            },
            None => DamageRoute::Skip,
        }
    } else {
        let i = find(actors, event.instigator);
        let v = find(actors, event.victim);
        match (i, v) {
            (Some(i), Some(v)) => {
                proof {
                    lemma_first_index(actors@, event.instigator, i as int);
                    lemma_first_index(actors@, event.victim, v as int);
                }
                DamageRoute::Between(i, v)
            },
            _ => {
                proof {
                    if let Some(i) = i { lemma_first_index(actors@, event.instigator, i as int); }
                    if let Some(v) = v { lemma_first_index(actors@, event.victim, v as int); }
                }
                DamageRoute::Skip
            },
        }
    }
}

} // verus!
