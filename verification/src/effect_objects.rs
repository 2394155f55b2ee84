use vstd::prelude::*;

use crate::common::Vec2;
use crate::effect::{DamageActor, SerializedActorEffect, SerializedOnHitEffect, SpawnLocation, SpawnType};
use crate::effect_application::{
    actor_gains, apply_actor_effect, do_spawn_object, effect_damages, effect_spawns, effect_statuses, world_gains,
    ActorDamageEffectContext, ActorEffectContext, ActorOnHitEffectContext, SpawnRequest,
};
use crate::effect_descriptions::{spawn_describable, spawn_description};
use crate::float::{Float, spec_zero, spec_one, spec_minus_one, zero, one, minus_one};
use crate::stats::{StatusEffect, status_description};
use crate::text::TextPiece;

verus! {

/// The serializable form of an effect that acts on damage.
#[derive(Clone, Copy, Debug)]
pub enum SerializedDamageEffect {
    MultiplyDamageEffect { factor: Float },
    AddDamageEffect { amount: Float },
    SpawnObjectAt { which_actor: DamageActor, spawn_type: SpawnType },
    RegularEffect { effect: SerializedActorEffect },
}

/// Multiplies damage by a factor.
#[derive(Clone, Copy, Debug)]
pub struct DamageFactor {
    pub factor: Float,
}

pub open spec fn damage_factor_wording(factor: Float) -> Seq<TextPiece> {
    if factor.spec_eq(spec_minus_one()) {
        seq![TextPiece::Text("invert damage dealt (multiply by -1)")]
    } else if factor.spec_eq(spec_one()) {
        seq![TextPiece::Text("do nothing")]
    } else if spec_zero().spec_le(factor) && factor.spec_lt(spec_one()) {
        seq![TextPiece::Text("decrease damage dealt by "), TextPiece::PercentBelowOne(factor), TextPiece::Text("%")]
    } else if spec_one().spec_lt(factor) {
        seq![TextPiece::Text("increase damage dealt by "), TextPiece::PercentAboveOne(factor), TextPiece::Text("%")]
    } else {
        seq![TextPiece::Text("multiply damage dealt by "), TextPiece::Number(factor)]
    }
}

impl DamageFactor {
    pub fn serialize_into(&self) -> (r: SerializedDamageEffect)
        ensures r == (SerializedDamageEffect::MultiplyDamageEffect { factor: self.factor }),
    {
        SerializedDamageEffect::MultiplyDamageEffect { factor: self.factor }
    }

    /// Describes the effect in words that fit "Upon damaging a target [description]".
    pub fn describe(&self) -> (r: Vec<TextPiece>)
        ensures r@ == damage_factor_wording(self.factor),
    {
        let factor = self.factor;
        if factor.equals(&minus_one()) {
            vec![TextPiece::Text("invert damage dealt (multiply by -1)")]
        } else if factor.equals(&one()) {
            vec![TextPiece::Text("do nothing")]
        } else if zero().less_or_equal(&factor) && factor.less_than(&one()) {
            vec![TextPiece::Text("decrease damage dealt by "), TextPiece::PercentBelowOne(factor), TextPiece::Text("%")]
        } else if one().less_than(&factor) {
            vec![TextPiece::Text("increase damage dealt by "), TextPiece::PercentAboveOne(factor), TextPiece::Text("%")]
        } else {
            vec![TextPiece::Text("multiply damage dealt by "), TextPiece::Number(factor)]
        }
    }
}

/// Adds an amount to damage.
#[derive(Clone, Copy, Debug)]
pub struct DamageAddition {
    pub amount: Float,
}

pub open spec fn damage_addition_wording(amount: Float) -> Seq<TextPiece> {
    if amount.spec_eq(spec_zero()) {
        seq![TextPiece::Text("do nothing")]
    } else if amount.spec_lt(spec_zero()) {
        seq![TextPiece::Text("decrease damage dealt by "), TextPiece::Number(amount.spec_neg())]
    } else {
        seq![TextPiece::Text("increase damage dealt by "), TextPiece::Number(amount)]
    }
}

impl DamageAddition {
    pub fn serialize_into(&self) -> (r: SerializedDamageEffect)
        ensures r == (SerializedDamageEffect::AddDamageEffect { amount: self.amount }),
    {
        SerializedDamageEffect::AddDamageEffect { amount: self.amount }
    }

    pub fn describe(&self) -> (r: Vec<TextPiece>)
        ensures r@ == damage_addition_wording(self.amount),
    {
        let amount = self.amount;
        if amount.equals(&zero()) {
            vec![TextPiece::Text("do nothing")]
        } else if amount.less_than(&zero()) {
            vec![TextPiece::Text("decrease damage dealt by "), TextPiece::Number(amount.neg())]
        } else {
            vec![TextPiece::Text("increase damage dealt by "), TextPiece::Number(amount)]
        }
    }
}

/// Inflicts a status effect on the actor.
#[derive(Clone, Copy, Debug)]
pub struct InflictStatusEffect {
    pub status_effect: StatusEffect,
}

impl InflictStatusEffect {
    pub fn new(status_effect: StatusEffect) -> (r: Self)
        ensures r == (InflictStatusEffect { status_effect }),
    {
        Self { status_effect }
    }

    pub fn serialize_into(&self) -> (r: SerializedActorEffect)
        ensures r == SerializedActorEffect::InflictStatusEffect(self.status_effect),
    {
        SerializedActorEffect::InflictStatusEffect(self.status_effect)
    }

    /// Adds the status effect to the actor's status effects.
    pub fn apply_effect(&self, context: &mut ActorEffectContext)
        ensures
            actor_gains(old(context).actor, seq![self.status_effect], final(context).actor),
            world_gains(old(context).world_access, Seq::empty(), Seq::empty(), final(context).world_access),
    {
        let e = self.serialize_into();
        apply_actor_effect(&e, &mut context.world_access, &mut context.actor);
    }

    pub fn describe(&self) -> (r: Vec<TextPiece>)
        ensures r@ == seq![TextPiece::Text("Inflicts a status effect that ")] + status_description(self.status_effect),
    {
        let mut r = vec![TextPiece::Text("Inflicts a status effect that ")];
        let mut d = self.status_effect.get_description();
        r.append(&mut d);
        r
    }
}

/// Heals the actor by an amount (hurts it, for a negative amount).
#[derive(Clone, Copy, Debug)]
pub struct AffectHealthEffect {
    pub amount: Float,
}

/// The wording of this effect names the damage itself, negative as it is,
/// and for healing calls the healed amount damage too.
pub open spec fn affect_health_wording(amount: Float) -> Seq<TextPiece> {
    if amount.spec_eq(spec_zero()) {
        seq![TextPiece::Text("Does nothing")]
    } else if amount.spec_lt(spec_zero()) {
        seq![TextPiece::Text("Inflict "), TextPiece::Number(amount), TextPiece::Text(" damage")]
    } else {
        seq![TextPiece::Text("Inflict "), TextPiece::Number(amount), TextPiece::Text(" damage (heal for "), TextPiece::Number(amount.spec_neg()), TextPiece::Text(")")]
    }
}

impl AffectHealthEffect {
    pub fn serialize_into(&self) -> (r: SerializedActorEffect)
        ensures r == SerializedActorEffect::AffectHealth(self.amount),
    {
        SerializedActorEffect::AffectHealth(self.amount)
    }

    /// The actor deals itself damage of minus the amount.
    pub fn apply_effect(&self, context: &mut ActorEffectContext)
        ensures
            actor_gains(old(context).actor, Seq::empty(), final(context).actor),
            world_gains(old(context).world_access, effect_damages(SerializedActorEffect::AffectHealth(self.amount), old(context).actor.entity),
                Seq::empty(), final(context).world_access),
    {
        let e = self.serialize_into();
        apply_actor_effect(&e, &mut context.world_access, &mut context.actor);
    }

    pub fn describe(&self) -> (r: Vec<TextPiece>)
        ensures r@ == affect_health_wording(self.amount),
    {
        let amount = self.amount;
        if amount.equals(&zero()) {
            vec![TextPiece::Text("Does nothing")]
        } else if amount.less_than(&zero()) {
            vec![TextPiece::Text("Inflict "), TextPiece::Number(amount), TextPiece::Text(" damage")]
        } else {
            vec![TextPiece::Text("Inflict "), TextPiece::Number(amount), TextPiece::Text(" damage (heal for "), TextPiece::Number(amount.neg()), TextPiece::Text(")")]
        }
    }
}

/// Spawns an object at the actor.
#[derive(Clone, Copy, Debug)]
pub struct SpawnEffect {
    pub spawn_type: SpawnType,
    pub spawn_location: SpawnLocation,
}

fn describe_spawned(spawn_type: &SpawnType, place: &'static str, with_place: bool) -> (r: Vec<TextPiece>)
    requires
        spawn_describable(*spawn_type),
    ensures
        r@ == spawn_description(*spawn_type, if with_place { seq![TextPiece::Text(place)] } else { Seq::empty() }),
{
    let ghost p = if with_place { seq![TextPiece::Text(place)] } else { Seq::<TextPiece>::empty() };
    let (mut r, mut rest) = match spawn_type {
        SpawnType::Explosion { radius, damage, knockback_strength } => (
            vec![TextPiece::Text("Spawns an Explosion")],
            vec![TextPiece::Text(" with "), TextPiece::Number(*radius), TextPiece::Text(" radius, "),
                TextPiece::Number(*damage), TextPiece::Text(" damage, and "),
                TextPiece::Number(*knockback_strength), TextPiece::Text(" knockback")],
        ),
        SpawnType::Missile { damage, speed, acceleration, knockback_strength } => (
            vec![TextPiece::Text("Spawns a Missile")],
            vec![TextPiece::Text(" with speed: "), TextPiece::Number(*speed), TextPiece::Text(" u/s, acceleration: "),
                TextPiece::Number(*acceleration), TextPiece::Text(" u/s, damage: "),
                TextPiece::Number(*damage), TextPiece::Text(", and knockback strength: "),
                TextPiece::Number(*knockback_strength)],
        ),
        SpawnType::Lightning {} => (Vec::new(), Vec::new()),
    };
    let ghost head = r@;
    if with_place {
        r.push(TextPiece::Text(place));
    }
    let ghost rest0 = rest@;
    assert(r@ =~= head + p);
    r.append(&mut rest);
    assert(r@ =~= head + p + rest0);
    r
}

impl SpawnEffect {
    pub fn serialize_into(&self) -> (r: SerializedActorEffect)
        ensures r == SerializedActorEffect::SpawnEffect(self.spawn_type, self.spawn_location),
    {
        SerializedActorEffect::SpawnEffect(self.spawn_type, self.spawn_location)
    }

    /// Spawns the object where the actor is, on its behalf.
    pub fn apply_effect(&self, context: &mut ActorEffectContext)
        ensures
            actor_gains(old(context).actor, Seq::empty(), final(context).actor),
            world_gains(old(context).world_access, Seq::empty(),
                seq![SpawnRequest { spawn_type: self.spawn_type, location: old(context).actor.location.0, owner: old(context).actor.entity }],
                final(context).world_access),
    {
        let e = self.serialize_into();
        apply_actor_effect(&e, &mut context.world_access, &mut context.actor);
    }

    pub fn describe(&self) -> (r: Vec<TextPiece>)
        requires
            spawn_describable(self.spawn_type),
        ensures
            r@ == spawn_description(self.spawn_type, Seq::empty()),
    {
        describe_spawned(&self.spawn_type, "", false)
    }
}

/// Spawns an object where an ability hits something, or, for damage, at one
/// of the actors involved.
#[derive(Clone, Copy, Debug)]
pub struct SpawnAtHitEffect {
    pub which_actor: DamageActor,
    pub spawn_type: SpawnType,
}

pub open spec fn spawn_place(which_actor: DamageActor) -> &'static str {
    match which_actor {
        DamageActor::Instigator => " (at the Instigator)",
        DamageActor::Victim => " (at the Victim)",
    }
}

impl SpawnAtHitEffect {
    pub fn serialize_into_on_hit(&self) -> (r: SerializedOnHitEffect)
        ensures r == (SerializedOnHitEffect::SpawnEffectAtHitLocation { spawn_type: self.spawn_type }),
    {
        SerializedOnHitEffect::SpawnEffectAtHitLocation { spawn_type: self.spawn_type }
    }

    pub fn serialize_into_damage(&self) -> (r: SerializedDamageEffect)
        ensures r == (SerializedDamageEffect::SpawnObjectAt { which_actor: self.which_actor, spawn_type: self.spawn_type }),
    {
        SerializedDamageEffect::SpawnObjectAt { which_actor: self.which_actor, spawn_type: self.spawn_type }
    }

    /// Spawns the object at the hit location, on behalf of the instigator.
    pub fn apply_effect(&self, context: &mut ActorOnHitEffectContext)
        ensures
            final(context).instigator == old(context).instigator,
            final(context).victim == old(context).victim,
            final(context).hit_location == old(context).hit_location,
            world_gains(old(context).world_access, Seq::empty(),
                seq![SpawnRequest { spawn_type: self.spawn_type, location: old(context).hit_location, owner: old(context).instigator.entity }],
                final(context).world_access),
    {
        let owner = context.instigator.entity;
        let location = context.hit_location;
        do_spawn_object(&mut context.world_access, self.spawn_type, location, owner);
        assert(context.world_access.spawn_requests@ =~= old(context).world_access.spawn_requests@
            + seq![SpawnRequest { spawn_type: self.spawn_type, location, owner }]);
        assert(context.world_access.damage_instances@ =~= old(context).world_access.damage_instances@ + Seq::<crate::actor::DamageEvent>::empty());
    }

    /// Spawns the object at the actor `which_actor` names (the instigator,
    /// where there is no victim) and leaves the damage as it is.
    pub fn process_damage(&self, context: &mut ActorDamageEffectContext, damage: Float) -> (r: Float)
        ensures
            r == damage,
            ({
                let a = if self.which_actor == DamageActor::Victim && old(context).victim is Some {
                    old(context).victim->0
                } else {
                    old(context).instigator
                };
                &&& final(context).instigator == old(context).instigator
                &&& final(context).victim == old(context).victim
                &&& world_gains(old(context).world_access, Seq::empty(),
                        seq![SpawnRequest { spawn_type: self.spawn_type, location: a.location.0, owner: a.entity }],
                        final(context).world_access)
            }),
    {
        let (world_access, actor) = context.actor_values(self.which_actor);
        let location = actor.location.0;
        let owner = actor.entity;
        do_spawn_object(world_access, self.spawn_type, location, owner);
        assert(world_access.spawn_requests@ =~= old(context).world_access.spawn_requests@
            + seq![SpawnRequest { spawn_type: self.spawn_type, location, owner }]);
        assert(world_access.damage_instances@ =~= old(context).world_access.damage_instances@ + Seq::<crate::actor::DamageEvent>::empty());
        damage
    }

    /// Describes the effect as an on-hit effect.
    pub fn describe(&self) -> (r: Vec<TextPiece>)
        requires
            spawn_describable(self.spawn_type),
        ensures
            r@ == spawn_description(self.spawn_type, seq![TextPiece::Text(" (at the hit point)")]),
    {
        describe_spawned(&self.spawn_type, " (at the hit point)", true)
    }

    /// Describes the effect as an effect on damage.
    pub fn describe_for_damage(&self) -> (r: Vec<TextPiece>)
        requires
            spawn_describable(self.spawn_type),
        ensures
            r@ == spawn_description(self.spawn_type, seq![TextPiece::Text(spawn_place(self.which_actor))]),
    {
        let place = match self.which_actor {
            DamageActor::Instigator => " (at the Instigator)",
            DamageActor::Victim => " (at the Victim)",
        };
        describe_spawned(&self.spawn_type, place, true)
    }
}

} // verus!
