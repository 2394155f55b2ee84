use vstd::prelude::*;

use crate::float::Float;
use crate::stats::StatusEffect;

verus! {

/// The kind of ability that spawned a child entity of an actor.
#[derive(Clone, Copy, Debug, PartialEq, Eq, Structural)]
pub enum ChildType {
    Melee,
    Projectile,
    Missile,
    Grenade,
    Explosion,
    ChildActor,
}

/// An object an effect can spawn.
#[derive(Clone, Copy, Debug)]
pub enum SpawnType {
    Explosion { radius: Float, damage: Float, knockback_strength: Float },
    Missile { damage: Float, speed: Float, acceleration: Float, knockback_strength: Float },
    Lightning {},
}

#[derive(Clone, Copy, Debug, PartialEq, Eq, Structural)]
pub enum SpawnLocation {
    AtCaster,
    AtHitEnemy,
}

/// One of the two actors involved in damage.
#[derive(Clone, Copy, Debug, PartialEq, Eq, Structural)]
pub enum DamageActor {
    /// The actor that was dealt the damage.
    Victim,
    /// The actor responsible for dealing the damage.
    Instigator,
}

#[derive(Clone, Copy, Debug)]
pub enum SerializedActorEffect {
    InflictStatusEffect(StatusEffect),
    SpawnEffect(SpawnType, SpawnLocation),
    AffectHealth(Float),
}

#[derive(Clone, Copy, Debug)]
pub enum SerializedDamageChangeEffect {
    MultiplyDamageEffect { factor: Float },
    AddDamageEffect { amount: Float },
}

#[derive(Clone, Copy, Debug)]
pub enum SerializedDamageViewEffect {
    SpawnObjectAt { which_actor: DamageActor, spawn_type: SpawnType },
    EveryXDamageEffect { accumulated_damage: Float, damage_threshold: Float, which_actor: DamageActor, effect: SerializedActorEffect },
    EveryXHealedEffect { accumulated_healing: Float, healing_threshold: Float, which_actor: DamageActor, effect: SerializedActorEffect },
    RegularEffect { effect: SerializedActorEffect },
}

#[derive(Clone, Copy, Debug)]
pub enum SerializedKillEffect {
    RegularEffect { effect: SerializedActorEffect },
}

#[derive(Clone, Copy, Debug)]
pub enum SerializedDeathEffect {
    RegularEffect { effect: SerializedActorEffect },
}

#[derive(Clone, Copy, Debug)]
pub enum SerializedOnHitEffect {
    SpawnEffectAtHitLocation { spawn_type: SpawnType },
    RegularEffect { effect: SerializedActorEffect },
}

/// When an effect of an actor applies, together with the effect.
#[derive(Clone, Copy, Debug)]
pub enum SerializedEffectTrigger {
    OnKill(SerializedKillEffect),
    OnDeath(SerializedDeathEffect),
    Periodically { remaining_period: Float, period: Float, effect: SerializedActorEffect },
    /// Changes the damage the actor does.
    OnDoDamage(SerializedDamageChangeEffect),
    /// Sees the damage the actor did, without changing it.
    OnDamageDone(SerializedDamageViewEffect),
    /// Changes the damage the actor receives.
    OnReceiveDamage(SerializedDamageChangeEffect),
    /// Sees the damage the actor received, without changing it.
    OnDamageReceived(SerializedDamageViewEffect),
    OnAbilityCast { ability_type: ChildType, effect: SerializedActorEffect },
    OnAbilityHit { ability_type: ChildType, effect: SerializedOnHitEffect },
    OnAbilityEnd { ability_type: ChildType, effect: SerializedActorEffect },
}

impl From<SerializedActorEffect> for SerializedDamageViewEffect {
    fn from(effect: SerializedActorEffect) -> (r: Self) {
        SerializedDamageViewEffect::RegularEffect { effect }
    }
}

impl vstd::std_specs::convert::FromSpecImpl<SerializedActorEffect> for SerializedDamageViewEffect {
    open spec fn obeys_from_spec() -> bool { true }

    open spec fn from_spec(effect: SerializedActorEffect) -> Self {
        SerializedDamageViewEffect::RegularEffect { effect }
    }
}


impl From<SerializedActorEffect> for SerializedKillEffect {
    fn from(effect: SerializedActorEffect) -> (r: Self) {
        SerializedKillEffect::RegularEffect { effect }
    }
}

impl vstd::std_specs::convert::FromSpecImpl<SerializedActorEffect> for SerializedKillEffect {
    open spec fn obeys_from_spec() -> bool { true }

    open spec fn from_spec(effect: SerializedActorEffect) -> Self {
        SerializedKillEffect::RegularEffect { effect }
    }
}

impl From<SerializedActorEffect> for SerializedDeathEffect {
    fn from(effect: SerializedActorEffect) -> (r: Self) {
        SerializedDeathEffect::RegularEffect { effect }
    }
}

impl vstd::std_specs::convert::FromSpecImpl<SerializedActorEffect> for SerializedDeathEffect {
    open spec fn obeys_from_spec() -> bool { true }

    open spec fn from_spec(effect: SerializedActorEffect) -> Self {
        SerializedDeathEffect::RegularEffect { effect }
    }
}

impl From<SerializedActorEffect> for SerializedOnHitEffect {
    fn from(effect: SerializedActorEffect) -> (r: Self) {
        SerializedOnHitEffect::RegularEffect { effect }
    }
}

impl vstd::std_specs::convert::FromSpecImpl<SerializedActorEffect> for SerializedOnHitEffect {
    open spec fn obeys_from_spec() -> bool { true }

    open spec fn from_spec(effect: SerializedActorEffect) -> Self {
        SerializedOnHitEffect::RegularEffect { effect }
    }
}

} // verus!
