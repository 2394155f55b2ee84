use vstd::prelude::*;

use crate::effect::{ChildType, DamageActor, SerializedActorEffect, SerializedDeathEffect, SerializedKillEffect, SerializedOnHitEffect};
use crate::effect_application::{
    actor_gains, apply_actor_effect, damage_context_applies, effect_damages, effect_spawns, effect_statuses, hit_damages,
    hit_spawns, hit_statuses, world_gains, ActorDamageEffectContext, ActorDeathEffectContext, ActorEffectContext,
    ActorKillEffectContext, ActorOnHitEffectContext,
};
use crate::effect_descriptions::{actor_effect_describable, on_hit_describable, spawn_describable, spawn_description};
use crate::effect_objects::{
    affect_health_wording, damage_addition_wording, damage_factor_wording, spawn_place, AffectHealthEffect, DamageAddition,
    DamageFactor, InflictStatusEffect, SerializedDamageEffect, SpawnAtHitEffect, SpawnEffect,
};
use crate::stats::status_description;
use crate::text::TextPiece;

verus! {

/// An actor effect made ready to apply: one of the effect objects.
#[derive(Clone, Copy, Debug)]
pub enum ActorEffect {
    InflictStatus(InflictStatusEffect),
    Spawn(SpawnEffect),
    AffectHealth(AffectHealthEffect),
}

/// The description of an actor effect object, in its own words.
pub open spec fn actor_effect_wording(e: ActorEffect) -> Seq<TextPiece> {
    match e {
        ActorEffect::InflictStatus(s) => seq![TextPiece::Text("Inflicts a status effect that ")] + status_description(s.status_effect),
        ActorEffect::Spawn(s) => spawn_description(s.spawn_type, Seq::empty()),
        ActorEffect::AffectHealth(h) => affect_health_wording(h.amount),
    }
}

impl ActorEffect {
    /// The serializable form of this effect.
    pub open spec fn spec_serialize(self) -> SerializedActorEffect {
        match self {
            ActorEffect::InflictStatus(e) => SerializedActorEffect::InflictStatusEffect(e.status_effect),
            ActorEffect::Spawn(e) => SerializedActorEffect::SpawnEffect(e.spawn_type, e.spawn_location),
            ActorEffect::AffectHealth(e) => SerializedActorEffect::AffectHealth(e.amount),
        }
    }

    pub fn serialize_into(&self) -> (r: SerializedActorEffect)
        ensures
            r == self.spec_serialize(),
    {
        match self {
            ActorEffect::InflictStatus(e) => e.serialize_into(),
            ActorEffect::Spawn(e) => e.serialize_into(),
            ActorEffect::AffectHealth(e) => e.serialize_into(),
        }
    }

    /// Applies this effect to the actor of `context`, as its serializable
    /// form would.
    pub fn apply_effect(&self, context: &mut ActorEffectContext)
        ensures
            actor_gains(old(context).actor, effect_statuses(self.spec_serialize()), final(context).actor),
            world_gains(old(context).world_access, effect_damages(self.spec_serialize(), old(context).actor.entity),
                effect_spawns(self.spec_serialize(), old(context).actor.entity, old(context).actor.location.0), final(context).world_access),
    {
        let e = self.serialize_into();
        apply_actor_effect(&e, &mut context.world_access, &mut context.actor);
    }

    pub fn describe(&self) -> (r: Vec<TextPiece>)
        requires
            actor_effect_describable(self.spec_serialize()),
        ensures
            r@ == actor_effect_wording(*self),
    {
        match self {
            ActorEffect::InflictStatus(e) => e.describe(),
            ActorEffect::Spawn(e) => e.describe(),
            ActorEffect::AffectHealth(e) => e.describe(),
        }
    }
}

impl SerializedActorEffect {
    /// The effect object this serializable effect stands for.
    pub open spec fn spec_instantiate(self) -> ActorEffect {
        match self {
            SerializedActorEffect::InflictStatusEffect(s) => ActorEffect::InflictStatus(InflictStatusEffect { status_effect: s }),
            SerializedActorEffect::SpawnEffect(t, l) => ActorEffect::Spawn(SpawnEffect { spawn_type: t, spawn_location: l }),
            SerializedActorEffect::AffectHealth(a) => ActorEffect::AffectHealth(AffectHealthEffect { amount: a }),
        }
    }

    pub fn instantiate(&self) -> (r: ActorEffect)
        ensures
            r == self.spec_instantiate(),
    {
        match self {
            SerializedActorEffect::InflictStatusEffect(s) => ActorEffect::InflictStatus(InflictStatusEffect::new(*s)),
            SerializedActorEffect::SpawnEffect(t, l) => ActorEffect::Spawn(SpawnEffect { spawn_type: *t, spawn_location: *l }),
            SerializedActorEffect::AffectHealth(a) => ActorEffect::AffectHealth(AffectHealthEffect { amount: *a }),
        }
    }
}

/// An actor effect used where an effect on damage, on a kill, on a death or
/// on a hit is expected: it applies the actor effect to the actor concerned.
#[derive(Clone, Copy, Debug)]
pub struct WrappedEffect {
    pub effect: ActorEffect,
}

impl WrappedEffect {
    pub fn serialize_into_damage(&self) -> (r: SerializedDamageEffect)
        ensures
            r == (SerializedDamageEffect::RegularEffect { effect: self.effect.spec_serialize() }),
    {
        SerializedDamageEffect::RegularEffect { effect: self.effect.serialize_into() }
    }

    pub fn serialize_into_kill(&self) -> (r: SerializedKillEffect)
        ensures
            r == (SerializedKillEffect::RegularEffect { effect: self.effect.spec_serialize() }),
    {
        SerializedKillEffect::RegularEffect { effect: self.effect.serialize_into() }
    }

    pub fn serialize_into_death(&self) -> (r: SerializedDeathEffect)
        ensures
            r == (SerializedDeathEffect::RegularEffect { effect: self.effect.spec_serialize() }),
    {
        SerializedDeathEffect::RegularEffect { effect: self.effect.serialize_into() }
    }

    pub fn serialize_into_on_hit(&self) -> (r: SerializedOnHitEffect)
        ensures
            r == (SerializedOnHitEffect::RegularEffect { effect: self.effect.spec_serialize() }),
    {
        SerializedOnHitEffect::RegularEffect { effect: self.effect.serialize_into() }
    }

    /// As an effect on damage: applies the actor effect to the actor that
    /// `effect_owner` names and leaves the damage as it is.
    pub fn process_damage(&self, context: &mut ActorDamageEffectContext, effect_owner: DamageActor, damage: crate::float::Float)
        -> (r: crate::float::Float)
        ensures
            r == damage,
            damage_context_applies(*old(context), effect_owner, self.effect.spec_serialize(), *final(context)),
    {
        let (world_access, actor) = context.actor_values(effect_owner);
        let e = self.effect.serialize_into();
        apply_actor_effect(&e, world_access, actor);
        damage
    }

    /// As an effect on a kill: applies the actor effect to the killer.
    pub fn apply_kill_effect(&self, context: &mut ActorKillEffectContext)
        ensures
            actor_gains(old(context).instigator, effect_statuses(self.effect.spec_serialize()), final(context).instigator),
            world_gains(old(context).world_access, effect_damages(self.effect.spec_serialize(), old(context).instigator.entity),
                effect_spawns(self.effect.spec_serialize(), old(context).instigator.entity, old(context).instigator.location.0),
                final(context).world_access),
            final(context).victim == old(context).victim,
    {
        let e = self.effect.serialize_into();
        apply_actor_effect(&e, &mut context.world_access, &mut context.instigator);
    }

    /// As an effect on a death: applies the actor effect to the dying actor;
    /// the result is always `false`.
    pub fn apply_death_effect(&self, context: &mut ActorDeathEffectContext) -> (r: bool)
        ensures
            r == false,
            actor_gains(old(context).victim, effect_statuses(self.effect.spec_serialize()), final(context).victim),
            world_gains(old(context).world_access, effect_damages(self.effect.spec_serialize(), old(context).victim.entity),
                effect_spawns(self.effect.spec_serialize(), old(context).victim.entity, old(context).victim.location.0),
                final(context).world_access),
            final(context).instigator == old(context).instigator,
    {
        let e = self.effect.serialize_into();
        apply_actor_effect(&e, &mut context.world_access, &mut context.victim);
        false
    }

    /// As an effect on a hit: applies the actor effect to the instigator.
    pub fn apply_hit_effect(&self, context: &mut ActorOnHitEffectContext)
        ensures
            actor_gains(old(context).instigator, effect_statuses(self.effect.spec_serialize()), final(context).instigator),
            world_gains(old(context).world_access, effect_damages(self.effect.spec_serialize(), old(context).instigator.entity),
                effect_spawns(self.effect.spec_serialize(), old(context).instigator.entity, old(context).instigator.location.0),
                final(context).world_access),
            final(context).victim == old(context).victim,
            final(context).hit_location == old(context).hit_location,
    {
        let e = self.effect.serialize_into();
        apply_actor_effect(&e, &mut context.world_access, &mut context.instigator);
    }

    pub fn describe(&self) -> (r: Vec<TextPiece>)
        requires
            actor_effect_describable(self.effect.spec_serialize()),
        ensures
            r@ == actor_effect_wording(self.effect),
    {
        self.effect.describe()
    }
}

/// An effect on damage made ready to apply: one of the effect objects.
#[derive(Clone, Copy, Debug)]
pub enum DamageEffect {
    Factor(DamageFactor),
    Addition(DamageAddition),
    SpawnAt(SpawnAtHitEffect),
    Wrapped(WrappedEffect),
}

/// Effects on damage that can be described: no lightning is spawned.
pub open spec fn damage_effect_describable(e: DamageEffect) -> bool {
    match e {
        DamageEffect::SpawnAt(s) => spawn_describable(s.spawn_type),
        DamageEffect::Wrapped(w) => actor_effect_describable(w.effect.spec_serialize()),
        _ => true,
    }
}

/// The description of an effect on damage, in its own words.
pub open spec fn damage_effect_wording(e: DamageEffect) -> Seq<TextPiece> {
    match e {
        DamageEffect::Factor(f) => damage_factor_wording(f.factor),
        DamageEffect::Addition(a) => damage_addition_wording(a.amount),
        DamageEffect::SpawnAt(s) => spawn_description(s.spawn_type, seq![TextPiece::Text(spawn_place(s.which_actor))]),
        DamageEffect::Wrapped(w) => actor_effect_wording(w.effect),
    }
}

impl DamageEffect {
    /// The serializable form of this effect.
    pub open spec fn spec_serialize(self) -> SerializedDamageEffect {
        match self {
            DamageEffect::Factor(f) => SerializedDamageEffect::MultiplyDamageEffect { factor: f.factor },
            DamageEffect::Addition(a) => SerializedDamageEffect::AddDamageEffect { amount: a.amount },
            DamageEffect::SpawnAt(s) => SerializedDamageEffect::SpawnObjectAt { which_actor: s.which_actor, spawn_type: s.spawn_type },
            DamageEffect::Wrapped(w) => SerializedDamageEffect::RegularEffect { effect: w.effect.spec_serialize() },
        }
    }

    pub fn serialize_into(&self) -> (r: SerializedDamageEffect)
        ensures
            r == self.spec_serialize(),
    {
        match self {
            DamageEffect::Factor(f) => f.serialize_into(),
            DamageEffect::Addition(a) => a.serialize_into(),
            DamageEffect::SpawnAt(s) => s.serialize_into_damage(),
            DamageEffect::Wrapped(w) => w.serialize_into_damage(),
        }
    }

    pub fn describe(&self) -> (r: Vec<TextPiece>)
        requires
            damage_effect_describable(*self),
        ensures
            r@ == damage_effect_wording(*self),
    {
        match self {
            DamageEffect::Factor(f) => f.describe(),
            DamageEffect::Addition(a) => a.describe(),
            DamageEffect::SpawnAt(s) => s.describe_for_damage(),
            DamageEffect::Wrapped(w) => w.describe(),
        }
    }
}

impl SerializedDamageEffect {
    /// The effect object this serializable effect stands for.
    pub open spec fn spec_instantiate(self) -> DamageEffect {
        match self {
            SerializedDamageEffect::MultiplyDamageEffect { factor } => DamageEffect::Factor(DamageFactor { factor }),
            SerializedDamageEffect::AddDamageEffect { amount } => DamageEffect::Addition(DamageAddition { amount }),
            SerializedDamageEffect::SpawnObjectAt { which_actor, spawn_type } =>
                DamageEffect::SpawnAt(SpawnAtHitEffect { which_actor, spawn_type }),
            SerializedDamageEffect::RegularEffect { effect } => DamageEffect::Wrapped(WrappedEffect { effect: effect.spec_instantiate() }),
        }
    }

    pub fn instantiate(&self) -> (r: DamageEffect)
        ensures
            r == self.spec_instantiate(),
    {
        match self {
            SerializedDamageEffect::MultiplyDamageEffect { factor } => DamageEffect::Factor(DamageFactor { factor: *factor }),
            SerializedDamageEffect::AddDamageEffect { amount } => DamageEffect::Addition(DamageAddition { amount: *amount }),
            SerializedDamageEffect::SpawnObjectAt { which_actor, spawn_type } =>
                DamageEffect::SpawnAt(SpawnAtHitEffect { which_actor: *which_actor, spawn_type: *spawn_type }),
            SerializedDamageEffect::RegularEffect { effect } => DamageEffect::Wrapped(WrappedEffect { effect: effect.instantiate() }),
        }
    }
}

/// An effect on a hit made ready to apply: one of the effect objects.
#[derive(Clone, Copy, Debug)]
pub enum OnHitEffect {
    SpawnAtHit(SpawnAtHitEffect),
    Wrapped(WrappedEffect),
}

impl OnHitEffect {
    /// The serializable form of this effect.
    pub open spec fn spec_serialize(self) -> SerializedOnHitEffect {
        match self {
            OnHitEffect::SpawnAtHit(s) => SerializedOnHitEffect::SpawnEffectAtHitLocation { spawn_type: s.spawn_type },
            OnHitEffect::Wrapped(w) => SerializedOnHitEffect::RegularEffect { effect: w.effect.spec_serialize() },
        }
    }

    pub fn serialize_into(&self) -> (r: SerializedOnHitEffect)
        ensures
            r == self.spec_serialize(),
    {
        match self {
            OnHitEffect::SpawnAtHit(s) => s.serialize_into_on_hit(),
            OnHitEffect::Wrapped(w) => w.serialize_into_on_hit(),
        }
    }

    /// Applies this effect for an ability of the instigator of `context` that
    /// hit something, as its serializable form would.
    pub fn apply_effect(&self, context: &mut ActorOnHitEffectContext)
        ensures
            actor_gains(old(context).instigator, hit_statuses(self.spec_serialize()), final(context).instigator),
            world_gains(old(context).world_access, hit_damages(self.spec_serialize(), old(context).instigator.entity),
                hit_spawns(self.spec_serialize(), old(context).instigator.entity, old(context).instigator.location.0, old(context).hit_location),
                final(context).world_access),
            final(context).victim == old(context).victim,
            final(context).hit_location == old(context).hit_location,
    {
        let mut e = self.serialize_into();
        e.apply_effect(context);
    }

    pub fn describe(&self) -> (r: Vec<TextPiece>)
        requires
            on_hit_describable(self.spec_serialize()),
        ensures
            r@ == match *self {
                OnHitEffect::SpawnAtHit(s) => spawn_description(s.spawn_type, seq![TextPiece::Text(" (at the hit point)")]),
                OnHitEffect::Wrapped(w) => actor_effect_wording(w.effect),
            },
    {
        match self {
            OnHitEffect::SpawnAtHit(s) => s.describe(),
            OnHitEffect::Wrapped(w) => w.describe(),
        }
    }
}

impl SerializedOnHitEffect {
    /// The effect object this serializable effect stands for; spawning at
    /// the hit location is a spawn at the victim.
    pub open spec fn spec_instantiate(self) -> OnHitEffect {
        match self {
            SerializedOnHitEffect::SpawnEffectAtHitLocation { spawn_type } =>
                OnHitEffect::SpawnAtHit(SpawnAtHitEffect { which_actor: DamageActor::Victim, spawn_type }),
            SerializedOnHitEffect::RegularEffect { effect } => OnHitEffect::Wrapped(WrappedEffect { effect: effect.spec_instantiate() }),
        }
    }

    pub fn instantiate(&self) -> (r: OnHitEffect)
        ensures
            r == self.spec_instantiate(),
    {
        match self {
            SerializedOnHitEffect::SpawnEffectAtHitLocation { spawn_type } =>
                OnHitEffect::SpawnAtHit(SpawnAtHitEffect { which_actor: DamageActor::Victim, spawn_type: *spawn_type }),
            SerializedOnHitEffect::RegularEffect { effect } => OnHitEffect::Wrapped(WrappedEffect { effect: effect.instantiate() }),
        }
    }
}

impl SerializedKillEffect {
    pub fn instantiate(&self) -> (r: WrappedEffect)
        ensures
            r == (WrappedEffect { effect: self.actor_effect().spec_instantiate() }),
    {
        match self {
            SerializedKillEffect::RegularEffect { effect } => WrappedEffect { effect: effect.instantiate() },
        }
    }
}

impl SerializedDeathEffect {
    pub fn instantiate(&self) -> (r: WrappedEffect)
        ensures
            r == (WrappedEffect { effect: self.actor_effect().spec_instantiate() }),
    {
        match self {
            SerializedDeathEffect::RegularEffect { effect } => WrappedEffect { effect: effect.instantiate() },
        }
    }
}

/// When an effect object applies, in the form where effects on damage are
/// whole objects (`SerializedDamageEffect`), together with the effect.
#[derive(Clone, Copy, Debug)]
pub enum SerializedEffectTrigger {
    OnDamage(SerializedDamageEffect),
    Periodically { remaining_period: crate::float::Float, period: crate::float::Float, effect: SerializedActorEffect },
    OnKill(SerializedKillEffect),
    OnDeath(SerializedDeathEffect),
    OnReceiveDamage(SerializedDamageEffect),
    OnAbilityCast { ability_type: ChildType, effect: SerializedActorEffect },
    OnAbilityHit { ability_type: ChildType, effect: SerializedOnHitEffect },
    OnAbilityEnd { ability_type: ChildType, effect: SerializedActorEffect },
}

/// A trigger with its effect made ready to apply.
#[derive(Clone, Copy, Debug)]
pub enum EffectTrigger {
    OnDamage(DamageEffect),
    Periodically { remaining_period: crate::float::Float, period: crate::float::Float, effect: ActorEffect },
    OnKill(WrappedEffect),
    OnDeath(WrappedEffect),
    OnReceiveDamage(DamageEffect),
    OnAbilityCast { ability_type: ChildType, effect: ActorEffect },
    OnAbilityHit { ability_type: ChildType, effect: OnHitEffect },
    OnAbilityEnd { ability_type: ChildType, effect: ActorEffect },
}

impl SerializedEffectTrigger {
    /// The trigger with its effect made ready to apply.
    pub open spec fn spec_instantiate(self) -> EffectTrigger {
        match self {
            SerializedEffectTrigger::OnDamage(e) => EffectTrigger::OnDamage(e.spec_instantiate()),
            SerializedEffectTrigger::Periodically { remaining_period, period, effect } =>
                EffectTrigger::Periodically { remaining_period, period, effect: effect.spec_instantiate() },
            SerializedEffectTrigger::OnKill(k) => EffectTrigger::OnKill(WrappedEffect { effect: k.actor_effect().spec_instantiate() }),
            SerializedEffectTrigger::OnDeath(d) => EffectTrigger::OnDeath(WrappedEffect { effect: d.actor_effect().spec_instantiate() }),
            SerializedEffectTrigger::OnReceiveDamage(e) => EffectTrigger::OnReceiveDamage(e.spec_instantiate()),
            SerializedEffectTrigger::OnAbilityCast { ability_type, effect } =>
                EffectTrigger::OnAbilityCast { ability_type, effect: effect.spec_instantiate() },
            SerializedEffectTrigger::OnAbilityHit { ability_type, effect } =>
                EffectTrigger::OnAbilityHit { ability_type, effect: effect.spec_instantiate() },
            SerializedEffectTrigger::OnAbilityEnd { ability_type, effect } =>
                EffectTrigger::OnAbilityEnd { ability_type, effect: effect.spec_instantiate() },
        }
    }

    pub fn instantiate(&self) -> (r: EffectTrigger)
        ensures
            r == self.spec_instantiate(),
    {
        match self {
            SerializedEffectTrigger::OnDamage(e) => EffectTrigger::OnDamage(e.instantiate()),
            SerializedEffectTrigger::Periodically { remaining_period, period, effect } =>
                EffectTrigger::Periodically { remaining_period: *remaining_period, period: *period, effect: effect.instantiate() },
            SerializedEffectTrigger::OnKill(k) => EffectTrigger::OnKill(k.instantiate()),
            SerializedEffectTrigger::OnDeath(d) => EffectTrigger::OnDeath(d.instantiate()),
            SerializedEffectTrigger::OnReceiveDamage(e) => EffectTrigger::OnReceiveDamage(e.instantiate()),
            SerializedEffectTrigger::OnAbilityCast { ability_type, effect } =>
                EffectTrigger::OnAbilityCast { ability_type: *ability_type, effect: effect.instantiate() },
            SerializedEffectTrigger::OnAbilityHit { ability_type, effect } =>
                EffectTrigger::OnAbilityHit { ability_type: *ability_type, effect: effect.instantiate() },
            SerializedEffectTrigger::OnAbilityEnd { ability_type, effect } =>
                EffectTrigger::OnAbilityEnd { ability_type: *ability_type, effect: effect.instantiate() },
        }
    }
}

impl EffectTrigger {
    /// The serializable form of this trigger.
    pub open spec fn spec_serialize(self) -> SerializedEffectTrigger {
        match self {
            EffectTrigger::OnDamage(e) => SerializedEffectTrigger::OnDamage(e.spec_serialize()),
            EffectTrigger::Periodically { remaining_period, period, effect } =>
                SerializedEffectTrigger::Periodically { remaining_period, period, effect: effect.spec_serialize() },
            EffectTrigger::OnKill(w) => SerializedEffectTrigger::OnKill(SerializedKillEffect::RegularEffect { effect: w.effect.spec_serialize() }),
            EffectTrigger::OnDeath(w) => SerializedEffectTrigger::OnDeath(SerializedDeathEffect::RegularEffect { effect: w.effect.spec_serialize() }),
            EffectTrigger::OnReceiveDamage(e) => SerializedEffectTrigger::OnReceiveDamage(e.spec_serialize()),
            EffectTrigger::OnAbilityCast { ability_type, effect } =>
                SerializedEffectTrigger::OnAbilityCast { ability_type, effect: effect.spec_serialize() },
            EffectTrigger::OnAbilityHit { ability_type, effect } =>
                SerializedEffectTrigger::OnAbilityHit { ability_type, effect: effect.spec_serialize() },
            EffectTrigger::OnAbilityEnd { ability_type, effect } =>
                SerializedEffectTrigger::OnAbilityEnd { ability_type, effect: effect.spec_serialize() },
        }
    }

    pub fn serialize_into(&self) -> (r: SerializedEffectTrigger)
        ensures
            r == self.spec_serialize(),
    {
        match self {
            EffectTrigger::OnDamage(e) => SerializedEffectTrigger::OnDamage(e.serialize_into()),
            EffectTrigger::Periodically { remaining_period, period, effect } =>
                SerializedEffectTrigger::Periodically { remaining_period: *remaining_period, period: *period, effect: effect.serialize_into() },
            EffectTrigger::OnKill(w) => SerializedEffectTrigger::OnKill(w.serialize_into_kill()),
            EffectTrigger::OnDeath(w) => SerializedEffectTrigger::OnDeath(w.serialize_into_death()),
            EffectTrigger::OnReceiveDamage(e) => SerializedEffectTrigger::OnReceiveDamage(e.serialize_into()),
            EffectTrigger::OnAbilityCast { ability_type, effect } =>
                SerializedEffectTrigger::OnAbilityCast { ability_type: *ability_type, effect: effect.serialize_into() },
            EffectTrigger::OnAbilityHit { ability_type, effect } =>
                SerializedEffectTrigger::OnAbilityHit { ability_type: *ability_type, effect: effect.serialize_into() },
            EffectTrigger::OnAbilityEnd { ability_type, effect } =>
                SerializedEffectTrigger::OnAbilityEnd { ability_type: *ability_type, effect: effect.serialize_into() },
        }
    }
}

/// A trigger made ready to apply and turned back into its serializable form
/// is the trigger it was.
pub proof fn lemma_trigger_round_trip(t: SerializedEffectTrigger)
    ensures
        t.spec_instantiate().spec_serialize() == t,
{
    match t {
        SerializedEffectTrigger::OnKill(k) => { assert(k == SerializedKillEffect::RegularEffect { effect: k.actor_effect() }); },
        SerializedEffectTrigger::OnDeath(d) => { assert(d == SerializedDeathEffect::RegularEffect { effect: d.actor_effect() }); },
        _ => {},
    }
}

/// Making an effect ready to apply and turning it back into its serializable
/// form gives the effect back, for actor effects, effects on damage, on hits,
/// on kills and on deaths.
pub proof fn lemma_instantiate_then_serialize(
    a: SerializedActorEffect,
    d: SerializedDamageEffect,
    h: SerializedOnHitEffect,
    k: SerializedKillEffect,
    x: SerializedDeathEffect,
)
    ensures
        a.spec_instantiate().spec_serialize() == a,
        d.spec_instantiate().spec_serialize() == d,
        h.spec_instantiate().spec_serialize() == h,
        (SerializedKillEffect::RegularEffect { effect: k.actor_effect().spec_instantiate().spec_serialize() }) == k,
        (SerializedDeathEffect::RegularEffect { effect: x.actor_effect().spec_instantiate().spec_serialize() }) == x,
{
}

/// An actor effect object turned into its serializable form and made ready
/// again is the same object.
pub proof fn lemma_serialize_then_instantiate(e: ActorEffect)
    ensures
        e.spec_serialize().spec_instantiate() == e,
{
}

} // verus!
