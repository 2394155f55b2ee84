use vstd::prelude::*;

use crate::actor::{ActorContext, DamageEvent, Entity};
use crate::common::{Position, Vec2};
use crate::effect::{SpawnLocation, SerializedActorEffect, SerializedKillEffect, SerializedDeathEffect, SerializedOnHitEffect, SerializedEffectTrigger, SpawnType, ChildType, DamageActor, SerializedDamageChangeEffect, SerializedDamageViewEffect};
use crate::float::Float;
use crate::stats::StatusEffect;

verus! {

/// The sequence made by concatenating `f` of every element of `s`, in order.
pub open spec fn flat_map<A, B>(s: Seq<A>, f: spec_fn(A) -> Seq<B>) -> Seq<B>
    decreases s.len(),
{
    if s.len() == 0 {
        Seq::empty()
    } else {
        flat_map(s.drop_last(), f) + f(s.last())
    }
}

pub proof fn lemma_flat_map_take<A, B>(s: Seq<A>, f: spec_fn(A) -> Seq<B>, i: int)
    requires
        0 <= i < s.len(),
    ensures
        flat_map(s.take(i + 1), f) == flat_map(s.take(i), f) + f(s[i]),
{
    assert(s.take(i + 1).drop_last() =~= s.take(i));
}

pub proof fn lemma_flat_map_all<A, B>(s: Seq<A>, f: spec_fn(A) -> Seq<B>)
    ensures
        flat_map(s.take(s.len() as int), f) == flat_map(s, f),
{
    assert(s.take(s.len() as int) =~= s);
}

/// An object to be spawned into the world on behalf of `owner`.
#[derive(Clone, Copy, Debug)]
pub struct SpawnRequest {
    pub spawn_type: SpawnType,
    pub location: Vec2,
    pub owner: Entity,
}

/// What effects do to the world beyond the actors involved: objects to spawn
/// and damage to deal, both carried out by the host afterwards.
pub struct EffectContextWorldAccess {
    pub spawn_requests: Vec<SpawnRequest>,
    pub damage_instances: Vec<DamageEvent>,
}

/// An actor taking part in an effect: its entity, its actor data and its position.
pub struct ActorReference {
    pub entity: Entity,
    pub context: ActorContext,
    pub location: Position,
}

/// All values needed for applying an effect to one actor.
pub struct ActorEffectContext {
    pub world_access: EffectContextWorldAccess,
    pub actor: ActorReference,
}

/// All values needed for applying on-kill effects.
pub struct ActorKillEffectContext {
    pub world_access: EffectContextWorldAccess,
    pub instigator: ActorReference,
    pub victim: ActorReference,
}

/// All values needed for applying on-death effects.
pub struct ActorDeathEffectContext {
    pub world_access: EffectContextWorldAccess,
    pub instigator: Option<ActorReference>,
    pub victim: ActorReference,
}

/// All values needed for applying on-hit effects.
pub struct ActorOnHitEffectContext {
    pub world_access: EffectContextWorldAccess,
    pub instigator: ActorReference,
    pub victim: Option<ActorReference>,
    pub hit_location: Vec2,
}

/// `b` is `a` with `statuses` added to its status effects and nothing else changed.
pub open spec fn actor_gains(a: ActorReference, statuses: Seq<StatusEffect>, b: ActorReference) -> bool {
    &&& b.entity == a.entity
    &&& b.location == a.location
    &&& b.context.effects@ == a.context.effects@
    &&& b.context.status_effects@ == a.context.status_effects@ + statuses
    &&& b.context.stats@ == a.context.stats@
    &&& b.context.last_damage_source == a.context.last_damage_source
}

/// `b` is `a` with `damages` and `spawns` added, in this order, to what was requested before.
pub open spec fn world_gains(a: EffectContextWorldAccess, damages: Seq<DamageEvent>, spawns: Seq<SpawnRequest>, b: EffectContextWorldAccess) -> bool {
    &&& b.damage_instances@ == a.damage_instances@ + damages
    &&& b.spawn_requests@ == a.spawn_requests@ + spawns
}

/// The status effects an actor effect inflicts on its actor.
pub open spec fn effect_statuses(e: SerializedActorEffect) -> Seq<StatusEffect> {
    match e {
        SerializedActorEffect::InflictStatusEffect(s) => seq![s],
        _ => Seq::empty(),
    }
}

/// The damage an actor effect makes `actor` deal to itself: affecting health
/// by `h` is damage of `-h`.
pub open spec fn effect_damages(e: SerializedActorEffect, actor: Entity) -> Seq<DamageEvent> {
    match e {
        SerializedActorEffect::AffectHealth(h) => seq![DamageEvent { instigator: actor, victim: actor, damage: h.spec_neg() }],
        _ => Seq::empty(),
    }
}

/// The objects an actor effect spawns, at the actor's location.
pub open spec fn effect_spawns(e: SerializedActorEffect, actor: Entity, location: Vec2) -> Seq<SpawnRequest> {
    match e {
        SerializedActorEffect::SpawnEffect(t, _) => seq![SpawnRequest { spawn_type: t, location, owner: actor }],
        _ => Seq::empty(),
    }
}

/// Asks for `spawn_type` to be spawned at `location` on behalf of `owner`.
pub fn do_spawn_object(world_access: &mut EffectContextWorldAccess, spawn_type: SpawnType, location: Vec2, owner: Entity)
    ensures
        final(world_access).spawn_requests@ == old(world_access).spawn_requests@.push(SpawnRequest { spawn_type, location, owner }),
        final(world_access).damage_instances@ == old(world_access).damage_instances@,
{
    world_access.spawn_requests.push(SpawnRequest { spawn_type, location, owner });
}

/// Applies an actor effect to `actor`.
pub fn apply_actor_effect(effect: &SerializedActorEffect, world_access: &mut EffectContextWorldAccess, actor: &mut ActorReference)
    ensures
        actor_gains(*old(actor), effect_statuses(*effect), *final(actor)),
        world_gains(*old(world_access), effect_damages(*effect, old(actor).entity),
            effect_spawns(*effect, old(actor).entity, old(actor).location.0), *final(world_access)),
{
    match effect {
        SerializedActorEffect::AffectHealth(h) => {
            let d = DamageEvent { instigator: actor.entity, victim: actor.entity, damage: h.neg() };
            world_access.damage_instances.push(d);
            assert(world_access.damage_instances@ =~= old(world_access).damage_instances@ + effect_damages(*effect, old(actor).entity));
            assert(world_access.spawn_requests@ =~= old(world_access).spawn_requests@ + Seq::<SpawnRequest>::empty());
            assert(actor.context.status_effects@ =~= old(actor).context.status_effects@ + Seq::<StatusEffect>::empty());
        },
        SerializedActorEffect::InflictStatusEffect(s) => {
            actor.context.status_effects.push(*s);
            assert(actor.context.status_effects@ =~= old(actor).context.status_effects@ + effect_statuses(*effect));
            assert(world_access.spawn_requests@ =~= old(world_access).spawn_requests@ + Seq::<SpawnRequest>::empty());
            assert(world_access.damage_instances@ =~= old(world_access).damage_instances@ + Seq::<DamageEvent>::empty());
        },
        SerializedActorEffect::SpawnEffect(spawn_type, _pos) => {
            do_spawn_object(world_access, *spawn_type, actor.location.0, actor.entity);
            assert(world_access.spawn_requests@ =~= old(world_access).spawn_requests@ + effect_spawns(*effect, old(actor).entity, old(actor).location.0));
            assert(world_access.damage_instances@ =~= old(world_access).damage_instances@ + Seq::<DamageEvent>::empty());
            assert(actor.context.status_effects@ =~= old(actor).context.status_effects@ + Seq::<StatusEffect>::empty());
        },
    }
}

impl SerializedActorEffect {
    /// Applies this effect to the actor of `context`.
    pub fn apply_effect(&mut self, context: &mut ActorEffectContext)
        ensures
            *final(self) == *old(self),
            actor_gains(old(context).actor, effect_statuses(*old(self)), final(context).actor),
            world_gains(old(context).world_access, effect_damages(*old(self), old(context).actor.entity),
                effect_spawns(*old(self), old(context).actor.entity, old(context).actor.location.0), final(context).world_access),
    {
        apply_actor_effect(self, &mut context.world_access, &mut context.actor);
    }
}


/// The status effects of applying `effects` in order.
pub open spec fn all_statuses(effects: Seq<SerializedActorEffect>) -> Seq<StatusEffect> {
    flat_map(effects, |e: SerializedActorEffect| effect_statuses(e))
}

/// The damage of applying `effects` in order to `actor`.
pub open spec fn all_damages(effects: Seq<SerializedActorEffect>, actor: Entity) -> Seq<DamageEvent> {
    flat_map(effects, |e: SerializedActorEffect| effect_damages(e, actor))
}

/// The objects spawned by applying `effects` in order to `actor` at `location`.
pub open spec fn all_spawns(effects: Seq<SerializedActorEffect>, actor: Entity, location: Vec2) -> Seq<SpawnRequest> {
    flat_map(effects, |e: SerializedActorEffect| effect_spawns(e, actor, location))
}

/// Applies `effects`, in order, to `actor`.
fn apply_actor_effects(effects: &Vec<SerializedActorEffect>, world_access: &mut EffectContextWorldAccess, actor: &mut ActorReference)
    ensures
        actor_gains(*old(actor), all_statuses(effects@), *final(actor)),
        world_gains(*old(world_access), all_damages(effects@, old(actor).entity),
            all_spawns(effects@, old(actor).entity, old(actor).location.0), *final(world_access)),
{
    let ghost ent = actor.entity;
    let ghost loc = actor.location.0;
    let ghost fs = |e: SerializedActorEffect| effect_statuses(e);
    let ghost fd = |e: SerializedActorEffect| effect_damages(e, ent);
    let ghost fp = |e: SerializedActorEffect| effect_spawns(e, ent, loc);
    let mut i: usize = 0;
    assert(effects@.take(0) =~= Seq::<SerializedActorEffect>::empty());
    assert(actor.context.status_effects@ =~= old(actor).context.status_effects@ + flat_map(effects@.take(0), fs));
    assert(world_access.damage_instances@ =~= old(world_access).damage_instances@ + flat_map(effects@.take(0), fd));
    assert(world_access.spawn_requests@ =~= old(world_access).spawn_requests@ + flat_map(effects@.take(0), fp));
    while i < effects.len()
        invariant
            i <= effects@.len(),
            ent == old(actor).entity,
            loc == old(actor).location.0,
            fs == (|e: SerializedActorEffect| effect_statuses(e)),
            fd == (|e: SerializedActorEffect| effect_damages(e, ent)),
            fp == (|e: SerializedActorEffect| effect_spawns(e, ent, loc)),
            actor_gains(*old(actor), flat_map(effects@.take(i as int), fs), *actor),
            world_gains(*old(world_access), flat_map(effects@.take(i as int), fd), flat_map(effects@.take(i as int), fp), *world_access),
        decreases effects@.len() - i,
    {
        proof {
            lemma_flat_map_take(effects@, fs, i as int);
            lemma_flat_map_take(effects@, fd, i as int);
            lemma_flat_map_take(effects@, fp, i as int);
        }
        apply_actor_effect(&effects[i], world_access, actor);
        assert(actor.context.status_effects@ =~= old(actor).context.status_effects@ + flat_map(effects@.take(i + 1), fs));
        assert(world_access.damage_instances@ =~= old(world_access).damage_instances@ + flat_map(effects@.take(i + 1), fd));
        assert(world_access.spawn_requests@ =~= old(world_access).spawn_requests@ + flat_map(effects@.take(i + 1), fp));
        i = i + 1;
    }
    proof {
        lemma_flat_map_all(effects@, fs);
        lemma_flat_map_all(effects@, fd);
        lemma_flat_map_all(effects@, fp);
    }
}

/// The actor effects of `triggers` that fire when an ability of type
/// `ability` is cast, in the order of the triggers.
pub open spec fn ability_cast_effects(triggers: Seq<SerializedEffectTrigger>, ability: ChildType) -> Seq<SerializedActorEffect> {
    flat_map(triggers, |t: SerializedEffectTrigger| match t {
        SerializedEffectTrigger::OnAbilityCast { ability_type, effect } =>
            if ability_type == ability { seq![effect] } else { Seq::empty() },
        _ => Seq::empty(),
    })
}

/// The actor effects of `triggers` that fire when an ability of type
/// `ability` ends, in the order of the triggers.
pub open spec fn ability_end_effects(triggers: Seq<SerializedEffectTrigger>, ability: ChildType) -> Seq<SerializedActorEffect> {
    flat_map(triggers, |t: SerializedEffectTrigger| match t {
        SerializedEffectTrigger::OnAbilityEnd { ability_type, effect } =>
            if ability_type == ability { seq![effect] } else { Seq::empty() },
        _ => Seq::empty(),
    })
}

/// Collects the actor effects that `select` picks from `triggers`.
fn collect_actor_effects(triggers: &Vec<SerializedEffectTrigger>, ability: ChildType, on_cast: bool) -> (r: Vec<SerializedActorEffect>)
    ensures
        on_cast ==> r@ == ability_cast_effects(triggers@, ability),
        !on_cast ==> r@ == ability_end_effects(triggers@, ability),
{
    let ghost f = if on_cast {
        |t: SerializedEffectTrigger| match t {
            SerializedEffectTrigger::OnAbilityCast { ability_type, effect } =>
                if ability_type == ability { seq![effect] } else { Seq::empty() },
            _ => Seq::empty(),
        }
    } else {
        |t: SerializedEffectTrigger| match t {
            SerializedEffectTrigger::OnAbilityEnd { ability_type, effect } =>
                if ability_type == ability { seq![effect] } else { Seq::empty() },
            _ => Seq::empty(),
        }
    };
    let mut effects: Vec<SerializedActorEffect> = Vec::new();
    let mut i: usize = 0;
    assert(triggers@.take(0) =~= Seq::<SerializedEffectTrigger>::empty());
    while i < triggers.len()
        invariant
            i <= triggers@.len(),
            effects@ == flat_map(triggers@.take(i as int), f),
            on_cast ==> f == (|t: SerializedEffectTrigger| match t {
                SerializedEffectTrigger::OnAbilityCast { ability_type, effect } =>
                    if ability_type == ability { seq![effect] } else { Seq::<SerializedActorEffect>::empty() },
                _ => Seq::empty(),
            }),
            !on_cast ==> f == (|t: SerializedEffectTrigger| match t {
                SerializedEffectTrigger::OnAbilityEnd { ability_type, effect } =>
                    if ability_type == ability { seq![effect] } else { Seq::<SerializedActorEffect>::empty() },
                _ => Seq::empty(),
            }),
        decreases triggers@.len() - i,
    {
        proof { lemma_flat_map_take(triggers@, f, i as int); }
        let ghost before = effects@;
        match triggers[i] {
            SerializedEffectTrigger::OnAbilityCast { ability_type, effect } => {
                if on_cast && ability_type == ability {
                    effects.push(effect);
                }
            },
            SerializedEffectTrigger::OnAbilityEnd { ability_type, effect } => {
                if !on_cast && ability_type == ability {
                    effects.push(effect);
                }
            },
            _ => {},
        }
        assert(effects@ =~= before + f(triggers@[i as int]));
        i = i + 1;
    }
    proof { lemma_flat_map_all(triggers@, f); }
    effects
}

/// Applies the actor's on-cast effects for abilities of type `ability_type`,
/// in the order of its triggers, to the actor itself.
pub fn apply_on_ability_cast_effects(ability_type: ChildType, context: &mut ActorEffectContext)
    ensures
        ({
            let effects = ability_cast_effects(old(context).actor.context.effects@, ability_type);
            let a = old(context).actor;
            &&& actor_gains(a, all_statuses(effects), final(context).actor)
            &&& world_gains(old(context).world_access, all_damages(effects, a.entity),
                    all_spawns(effects, a.entity, a.location.0), final(context).world_access)
        }),
{
    let effects = collect_actor_effects(&context.actor.context.effects, ability_type, true);
    apply_actor_effects(&effects, &mut context.world_access, &mut context.actor);
}

/// Applies the actor's on-end effects for abilities of type `ability_type`,
/// in the order of its triggers, to the actor itself.
pub fn apply_on_ability_end_effects(ability_type: ChildType, context: &mut ActorEffectContext)
    ensures
        ({
            let effects = ability_end_effects(old(context).actor.context.effects@, ability_type);
            let a = old(context).actor;
            &&& actor_gains(a, all_statuses(effects), final(context).actor)
            &&& world_gains(old(context).world_access, all_damages(effects, a.entity),
                    all_spawns(effects, a.entity, a.location.0), final(context).world_access)
        }),
{
    let effects = collect_actor_effects(&context.actor.context.effects, ability_type, false);
    apply_actor_effects(&effects, &mut context.world_access, &mut context.actor);
}


impl SerializedKillEffect {
    /// The actor effect this kill effect applies.
    pub open spec fn actor_effect(self) -> SerializedActorEffect {
        match self {
            SerializedKillEffect::RegularEffect { effect } => effect,
        }
    }

    /// Applies this effect to the killer (the instigator of `context`).
    pub fn apply_effect(&mut self, context: &mut ActorKillEffectContext)
        ensures
            *final(self) == *old(self),
            actor_gains(old(context).instigator, effect_statuses(old(self).actor_effect()), final(context).instigator),
            world_gains(old(context).world_access, effect_damages(old(self).actor_effect(), old(context).instigator.entity),
                effect_spawns(old(self).actor_effect(), old(context).instigator.entity, old(context).instigator.location.0),
                final(context).world_access),
            final(context).victim == old(context).victim,
    {
        match self {
            SerializedKillEffect::RegularEffect { effect } => {
                apply_actor_effect(effect, &mut context.world_access, &mut context.instigator);
            },
        }
    }
}

impl SerializedDeathEffect {
    /// The actor effect this death effect applies.
    pub open spec fn actor_effect(self) -> SerializedActorEffect {
        match self {
            SerializedDeathEffect::RegularEffect { effect } => effect,
        }
    }

    /// Applies this effect to the dying actor (the victim of `context`);
    /// the result is always `false`.
    pub fn apply_effect(&mut self, context: &mut ActorDeathEffectContext) -> (r: bool)
        ensures
            r == false,
            *final(self) == *old(self),
            actor_gains(old(context).victim, effect_statuses(old(self).actor_effect()), final(context).victim),
            world_gains(old(context).world_access, effect_damages(old(self).actor_effect(), old(context).victim.entity),
                effect_spawns(old(self).actor_effect(), old(context).victim.entity, old(context).victim.location.0),
                final(context).world_access),
            final(context).instigator == old(context).instigator,
    {
        match self {
            SerializedDeathEffect::RegularEffect { effect } => {
                apply_actor_effect(effect, &mut context.world_access, &mut context.victim);
            },
        }
        false
    }
}

/// The status effects an on-hit effect inflicts on the instigator.
pub open spec fn hit_statuses(h: SerializedOnHitEffect) -> Seq<StatusEffect> {
    match h {
        SerializedOnHitEffect::RegularEffect { effect } => effect_statuses(effect),
        SerializedOnHitEffect::SpawnEffectAtHitLocation { .. } => Seq::empty(),
    }
}

/// The damage an on-hit effect makes the instigator deal to itself.
pub open spec fn hit_damages(h: SerializedOnHitEffect, instigator: Entity) -> Seq<DamageEvent> {
    match h {
        SerializedOnHitEffect::RegularEffect { effect } => effect_damages(effect, instigator),
        SerializedOnHitEffect::SpawnEffectAtHitLocation { .. } => Seq::empty(),
    }
}

/// The objects an on-hit effect spawns: at the hit location, or where the
/// instigator is for a regular effect.
pub open spec fn hit_spawns(h: SerializedOnHitEffect, instigator: Entity, location: Vec2, hit_location: Vec2) -> Seq<SpawnRequest> {
    match h {
        SerializedOnHitEffect::RegularEffect { effect } => effect_spawns(effect, instigator, location),
        SerializedOnHitEffect::SpawnEffectAtHitLocation { spawn_type } =>
            seq![SpawnRequest { spawn_type, location: hit_location, owner: instigator }],
    }
}

fn apply_hit_effect(h: &SerializedOnHitEffect, world_access: &mut EffectContextWorldAccess, instigator: &mut ActorReference, hit_location: Vec2)
    ensures
        actor_gains(*old(instigator), hit_statuses(*h), *final(instigator)),
        world_gains(*old(world_access), hit_damages(*h, old(instigator).entity),
            hit_spawns(*h, old(instigator).entity, old(instigator).location.0, hit_location), *final(world_access)),
{
    match h {
        SerializedOnHitEffect::SpawnEffectAtHitLocation { spawn_type } => {
            do_spawn_object(world_access, *spawn_type, hit_location, instigator.entity);
            assert(world_access.spawn_requests@ =~= old(world_access).spawn_requests@
                + hit_spawns(*h, old(instigator).entity, old(instigator).location.0, hit_location));
            assert(world_access.damage_instances@ =~= old(world_access).damage_instances@ + Seq::<DamageEvent>::empty());
            assert(instigator.context.status_effects@ =~= old(instigator).context.status_effects@ + Seq::<StatusEffect>::empty());
        },
        SerializedOnHitEffect::RegularEffect { effect } => {
            apply_actor_effect(effect, world_access, instigator);
        },
    }
}

impl SerializedOnHitEffect {
    /// Applies this effect for an ability of the instigator of `context`
    /// that hit something at `context.hit_location`.
    pub fn apply_effect(&mut self, context: &mut ActorOnHitEffectContext)
        ensures
            *final(self) == *old(self),
            actor_gains(old(context).instigator, hit_statuses(*old(self)), final(context).instigator),
            world_gains(old(context).world_access, hit_damages(*old(self), old(context).instigator.entity),
                hit_spawns(*old(self), old(context).instigator.entity, old(context).instigator.location.0, old(context).hit_location),
                final(context).world_access),
            final(context).victim == old(context).victim,
            final(context).hit_location == old(context).hit_location,
    {
        let hit_location = context.hit_location;
        apply_hit_effect(self, &mut context.world_access, &mut context.instigator, hit_location);
    }
}

/// The actor effects of `triggers` that fire when the actor kills, in order.
pub open spec fn kill_effects(triggers: Seq<SerializedEffectTrigger>) -> Seq<SerializedActorEffect> {
    flat_map(triggers, |t: SerializedEffectTrigger| match t {
        SerializedEffectTrigger::OnKill(k) => seq![k.actor_effect()],
        _ => Seq::empty(),
    })
}

/// The actor effects of `triggers` that fire when the actor dies, in order.
pub open spec fn death_effects(triggers: Seq<SerializedEffectTrigger>) -> Seq<SerializedActorEffect> {
    flat_map(triggers, |t: SerializedEffectTrigger| match t {
        SerializedEffectTrigger::OnDeath(d) => seq![d.actor_effect()],
        _ => Seq::empty(),
    })
}

fn collect_kill_or_death_effects(triggers: &Vec<SerializedEffectTrigger>, on_kill: bool) -> (r: Vec<SerializedActorEffect>)
    ensures
        on_kill ==> r@ == kill_effects(triggers@),
        !on_kill ==> r@ == death_effects(triggers@),
{
    let ghost f = if on_kill {
        |t: SerializedEffectTrigger| match t {
            SerializedEffectTrigger::OnKill(k) => seq![k.actor_effect()],
            _ => Seq::empty(),
        }
    } else {
        |t: SerializedEffectTrigger| match t {
            SerializedEffectTrigger::OnDeath(d) => seq![d.actor_effect()],
            _ => Seq::empty(),
        }
    };
    let mut effects: Vec<SerializedActorEffect> = Vec::new();
    let mut i: usize = 0;
    assert(triggers@.take(0) =~= Seq::<SerializedEffectTrigger>::empty());
    while i < triggers.len()
        invariant
            i <= triggers@.len(),
            effects@ == flat_map(triggers@.take(i as int), f),
            on_kill ==> f == (|t: SerializedEffectTrigger| match t {
                SerializedEffectTrigger::OnKill(k) => seq![k.actor_effect()],
                _ => Seq::<SerializedActorEffect>::empty(),
            }),
            !on_kill ==> f == (|t: SerializedEffectTrigger| match t {
                SerializedEffectTrigger::OnDeath(d) => seq![d.actor_effect()],
                _ => Seq::<SerializedActorEffect>::empty(),
            }),
        decreases triggers@.len() - i,
    {
        proof { lemma_flat_map_take(triggers@, f, i as int); }
        let ghost before = effects@;
        match triggers[i] {
            SerializedEffectTrigger::OnKill(SerializedKillEffect::RegularEffect { effect }) => {
                if on_kill {
                    effects.push(effect);
                }
            },
            SerializedEffectTrigger::OnDeath(SerializedDeathEffect::RegularEffect { effect }) => {
                if !on_kill {
                    effects.push(effect);
                }
            },
            _ => {},
        }
        assert(effects@ =~= before + f(triggers@[i as int]));
        i = i + 1;
    }
    proof { lemma_flat_map_all(triggers@, f); }
    effects
}

/// Applies the killer's on-kill effects, in the order of its triggers, to the killer.
pub fn apply_on_kill_effects(context: &mut ActorKillEffectContext)
    ensures
        ({
            let effects = kill_effects(old(context).instigator.context.effects@);
            let a = old(context).instigator;
            &&& actor_gains(a, all_statuses(effects), final(context).instigator)
            &&& world_gains(old(context).world_access, all_damages(effects, a.entity),
                    all_spawns(effects, a.entity, a.location.0), final(context).world_access)
            &&& final(context).victim == old(context).victim
        }),
{
    let effects = collect_kill_or_death_effects(&context.instigator.context.effects, true);
    apply_actor_effects(&effects, &mut context.world_access, &mut context.instigator);
}

/// Applies the dying actor's on-death effects, in the order of its triggers, to that actor.
pub fn apply_on_death_effects(context: &mut ActorDeathEffectContext)
    ensures
        ({
            let effects = death_effects(old(context).victim.context.effects@);
            let a = old(context).victim;
            &&& actor_gains(a, all_statuses(effects), final(context).victim)
            &&& world_gains(old(context).world_access, all_damages(effects, a.entity),
                    all_spawns(effects, a.entity, a.location.0), final(context).world_access)
            &&& final(context).instigator == old(context).instigator
        }),
{
    let effects = collect_kill_or_death_effects(&context.victim.context.effects, false);
    apply_actor_effects(&effects, &mut context.world_access, &mut context.victim);
}

/// The on-hit effects of `triggers` for abilities of type `ability`, in order.
pub open spec fn ability_hit_effects(triggers: Seq<SerializedEffectTrigger>, ability: ChildType) -> Seq<SerializedOnHitEffect> {
    flat_map(triggers, |t: SerializedEffectTrigger| match t {
        SerializedEffectTrigger::OnAbilityHit { ability_type, effect } =>
            if ability_type == ability { seq![effect] } else { Seq::empty() },
        _ => Seq::empty(),
    })
}

pub open spec fn all_hit_statuses(hits: Seq<SerializedOnHitEffect>) -> Seq<StatusEffect> {
    flat_map(hits, |h: SerializedOnHitEffect| hit_statuses(h))
}

pub open spec fn all_hit_damages(hits: Seq<SerializedOnHitEffect>, instigator: Entity) -> Seq<DamageEvent> {
    flat_map(hits, |h: SerializedOnHitEffect| hit_damages(h, instigator))
}

pub open spec fn all_hit_spawns(hits: Seq<SerializedOnHitEffect>, instigator: Entity, location: Vec2, hit_location: Vec2) -> Seq<SpawnRequest> {
    flat_map(hits, |h: SerializedOnHitEffect| hit_spawns(h, instigator, location, hit_location))
}

/// Applies the instigator's on-hit effects for abilities of type
/// `ability_type`, in the order of its triggers.
pub fn apply_on_ability_hit_effects(ability_type: ChildType, context: &mut ActorOnHitEffectContext)
    ensures
        ({
            let hits = ability_hit_effects(old(context).instigator.context.effects@, ability_type);
            let a = old(context).instigator;
            &&& actor_gains(a, all_hit_statuses(hits), final(context).instigator)
            &&& world_gains(old(context).world_access, all_hit_damages(hits, a.entity),
                    all_hit_spawns(hits, a.entity, a.location.0, old(context).hit_location), final(context).world_access)
            &&& final(context).victim == old(context).victim
            &&& final(context).hit_location == old(context).hit_location
        }),
{
    let ghost sel = |t: SerializedEffectTrigger| match t {
        SerializedEffectTrigger::OnAbilityHit { ability_type: a, effect } =>
            if a == ability_type { seq![effect] } else { Seq::<SerializedOnHitEffect>::empty() },
        _ => Seq::empty(),
    };
    let mut effects: Vec<SerializedOnHitEffect> = Vec::new();
    let mut i: usize = 0;
    assert(context.instigator.context.effects@.take(0) =~= Seq::<SerializedEffectTrigger>::empty());
    while i < context.instigator.context.effects.len()
        invariant
            context == old(context),
            i <= context.instigator.context.effects@.len(),
            effects@ == flat_map(context.instigator.context.effects@.take(i as int), sel),
            sel == (|t: SerializedEffectTrigger| match t {
                SerializedEffectTrigger::OnAbilityHit { ability_type: a, effect } =>
                    if a == ability_type { seq![effect] } else { Seq::<SerializedOnHitEffect>::empty() },
                _ => Seq::empty(),
            }),
        decreases context.instigator.context.effects@.len() - i,
    {
        proof { lemma_flat_map_take(context.instigator.context.effects@, sel, i as int); }
        let ghost before = effects@;
        match context.instigator.context.effects[i] {
            SerializedEffectTrigger::OnAbilityHit { ability_type: a, effect } => {
                if a == ability_type {
                    effects.push(effect);
                }
            },
            _ => {},
        }
        assert(effects@ =~= before + sel(context.instigator.context.effects@[i as int]));
        i = i + 1;
    }
    proof { lemma_flat_map_all(context.instigator.context.effects@, sel); }

    let hit_location = context.hit_location;
    let ghost ent = context.instigator.entity;
    let ghost loc = context.instigator.location.0;
    let ghost fs = |h: SerializedOnHitEffect| hit_statuses(h);
    let ghost fd = |h: SerializedOnHitEffect| hit_damages(h, ent);
    let ghost fp = |h: SerializedOnHitEffect| hit_spawns(h, ent, loc, hit_location);
    let mut j: usize = 0;
    assert(effects@.take(0) =~= Seq::<SerializedOnHitEffect>::empty());
    assert(context.instigator.context.status_effects@ =~= old(context).instigator.context.status_effects@ + flat_map(effects@.take(0), fs));
    assert(context.world_access.damage_instances@ =~= old(context).world_access.damage_instances@ + flat_map(effects@.take(0), fd));
    assert(context.world_access.spawn_requests@ =~= old(context).world_access.spawn_requests@ + flat_map(effects@.take(0), fp));
    while j < effects.len()
        invariant
            j <= effects@.len(),
            effects@ == ability_hit_effects(old(context).instigator.context.effects@, ability_type),
            ent == old(context).instigator.entity,
            loc == old(context).instigator.location.0,
            hit_location == old(context).hit_location,
            fs == (|h: SerializedOnHitEffect| hit_statuses(h)),
            fd == (|h: SerializedOnHitEffect| hit_damages(h, ent)),
            fp == (|h: SerializedOnHitEffect| hit_spawns(h, ent, loc, hit_location)),
            actor_gains(old(context).instigator, flat_map(effects@.take(j as int), fs), context.instigator),
            world_gains(old(context).world_access, flat_map(effects@.take(j as int), fd), flat_map(effects@.take(j as int), fp), context.world_access),
            context.victim == old(context).victim,
            context.hit_location == old(context).hit_location,
        decreases effects@.len() - j,
    {
        proof {
            lemma_flat_map_take(effects@, fs, j as int);
            lemma_flat_map_take(effects@, fd, j as int);
            lemma_flat_map_take(effects@, fp, j as int);
        }
        apply_hit_effect(&effects[j], &mut context.world_access, &mut context.instigator, hit_location);
        assert(context.instigator.context.status_effects@ =~= old(context).instigator.context.status_effects@ + flat_map(effects@.take(j + 1), fs));
        assert(context.world_access.damage_instances@ =~= old(context).world_access.damage_instances@ + flat_map(effects@.take(j + 1), fd));
        assert(context.world_access.spawn_requests@ =~= old(context).world_access.spawn_requests@ + flat_map(effects@.take(j + 1), fp));
        j = j + 1;
    }
    proof {
        lemma_flat_map_all(effects@, fs);
        lemma_flat_map_all(effects@, fd);
        lemma_flat_map_all(effects@, fp);
    }
}


/// All values needed for applying damage effects. Without a victim, the
/// instigator damages or heals itself.
pub struct ActorDamageEffectContext {
    pub world_access: EffectContextWorldAccess,
    pub instigator: ActorReference,
    pub victim: Option<ActorReference>,
}

impl ActorDamageEffectContext {
    /// The actor that receives the damage: the victim, or the instigator
    /// where there is none.
    pub fn get_victim(&mut self) -> (r: &mut ActorReference)
        ensures
            old(self).victim is Some ==> *r == old(self).victim->0
                && *final(self) == (ActorDamageEffectContext { victim: Some(*final(r)), ..*old(self) }),
            old(self).victim is None ==> *r == old(self).instigator
                && *final(self) == (ActorDamageEffectContext { instigator: *final(r), ..*old(self) }),
    {
        match &mut self.victim {
            Some(vic) => vic,
            None => &mut self.instigator,
        }
    }

    /// The world and the actor that `which_actor` names: the victim (or the
    /// instigator, where there is no victim) or the instigator.
    pub fn actor_values(&mut self, which_actor: DamageActor) -> (r: (&mut EffectContextWorldAccess, &mut ActorReference))
        ensures
            *r.0 == old(self).world_access,
            which_actor == DamageActor::Victim && old(self).victim is Some ==> *r.1 == old(self).victim->0
                && *final(self) == (ActorDamageEffectContext { world_access: *final(r.0), victim: Some(*final(r.1)), ..*old(self) }),
            !(which_actor == DamageActor::Victim && old(self).victim is Some) ==> *r.1 == old(self).instigator
                && *final(self) == (ActorDamageEffectContext { world_access: *final(r.0), instigator: *final(r.1), ..*old(self) }),
    {
        match which_actor {
            DamageActor::Instigator => (&mut self.world_access, &mut self.instigator),
            DamageActor::Victim => match &mut self.victim {
                Some(e) => (&mut self.world_access, e),
                None => (&mut self.world_access, &mut self.instigator),
            },
        }
    }
}


/// The damage-changing effects of `triggers` for the actor's part in damage:
/// those on the damage it does as instigator, or on the damage it receives
/// as victim, in the order of the triggers.
pub open spec fn damage_change_effects(triggers: Seq<SerializedEffectTrigger>, part: DamageActor) -> Seq<SerializedDamageChangeEffect> {
    flat_map(triggers, damage_change_fn(part))
}

/// The damage-changing effect a trigger contributes for the actor's part in damage.
pub open spec fn damage_change_fn(part: DamageActor) -> spec_fn(SerializedEffectTrigger) -> Seq<SerializedDamageChangeEffect> {
    |t: SerializedEffectTrigger| match t {
        SerializedEffectTrigger::OnDoDamage(e) => if part == DamageActor::Instigator { seq![e] } else { Seq::empty() },
        SerializedEffectTrigger::OnReceiveDamage(e) => if part == DamageActor::Victim { seq![e] } else { Seq::empty() },
        _ => Seq::empty(),
    }
}

/// The damage-viewing effects of `triggers` for the actor's part in damage:
/// those that see the damage it did as instigator, or the damage it
/// received as victim, in the order of the triggers.
pub open spec fn damage_view_effects(triggers: Seq<SerializedEffectTrigger>, part: DamageActor) -> Seq<SerializedDamageViewEffect> {
    flat_map(triggers, damage_view_fn(part))
}

/// The damage-viewing effect a trigger contributes for the actor's part in damage.
pub open spec fn damage_view_fn(part: DamageActor) -> spec_fn(SerializedEffectTrigger) -> Seq<SerializedDamageViewEffect> {
    |t: SerializedEffectTrigger| match t {
        SerializedEffectTrigger::OnDamageDone(e) => if part == DamageActor::Instigator { seq![e] } else { Seq::empty() },
        SerializedEffectTrigger::OnDamageReceived(e) => if part == DamageActor::Victim { seq![e] } else { Seq::empty() },
        _ => Seq::empty(),
    }
}

/// Collects the damage-changing effects of `triggers` for the actor's part in damage.
pub fn collect_damage_change_effects(triggers: &Vec<SerializedEffectTrigger>, part: DamageActor) -> (r: Vec<SerializedDamageChangeEffect>)
    ensures
        r@ == damage_change_effects(triggers@, part),
{
    let ghost f = damage_change_fn(part);
    let mut effects: Vec<SerializedDamageChangeEffect> = Vec::new();
    let mut i: usize = 0;
    assert(triggers@.take(0) =~= Seq::<SerializedEffectTrigger>::empty());
    while i < triggers.len()
        invariant
            i <= triggers@.len(),
            f == damage_change_fn(part),
            effects@ == flat_map(triggers@.take(i as int), f),
        decreases triggers@.len() - i,
    {
        proof { lemma_flat_map_take(triggers@, f, i as int); }
        let ghost before = effects@;
        match triggers[i] {
            SerializedEffectTrigger::OnDoDamage(e) => {
                if part == DamageActor::Instigator {
                    effects.push(e);
                }
            },
            SerializedEffectTrigger::OnReceiveDamage(e) => {
                if part == DamageActor::Victim {
                    effects.push(e);
                }
            },
            _ => {},
        }
        assert(effects@ =~= before + f(triggers@[i as int]));
        i = i + 1;
    }
    proof { lemma_flat_map_all(triggers@, f); }
    effects
}

/// Collects the damage-viewing effects of `triggers` for the actor's part in damage.
pub fn collect_damage_view_effects(triggers: &Vec<SerializedEffectTrigger>, part: DamageActor) -> (r: Vec<SerializedDamageViewEffect>)
    ensures
        r@ == damage_view_effects(triggers@, part),
{
    let ghost f = damage_view_fn(part);
    let mut effects: Vec<SerializedDamageViewEffect> = Vec::new();
    let mut i: usize = 0;
    assert(triggers@.take(0) =~= Seq::<SerializedEffectTrigger>::empty());
    while i < triggers.len()
        invariant
            i <= triggers@.len(),
            f == damage_view_fn(part),
            effects@ == flat_map(triggers@.take(i as int), f),
        decreases triggers@.len() - i,
    {
        proof { lemma_flat_map_take(triggers@, f, i as int); }
        let ghost before = effects@;
        match triggers[i] {
            SerializedEffectTrigger::OnDamageDone(e) => {
                if part == DamageActor::Instigator {
                    effects.push(e);
                }
            },
            SerializedEffectTrigger::OnDamageReceived(e) => {
                if part == DamageActor::Victim {
                    effects.push(e);
                }
            },
            _ => {},
        }
        assert(effects@ =~= before + f(triggers@[i as int]));
        i = i + 1;
    }
    proof { lemma_flat_map_all(triggers@, f); }
    effects
}

/// The actor that `which_actor` names in a damage context: the victim
/// (the instigator where there is no victim) or the instigator.
pub open spec fn named_actor(context: ActorDamageEffectContext, which_actor: DamageActor) -> ActorReference {
    if which_actor == DamageActor::Victim && context.victim is Some { context.victim->0 } else { context.instigator }
}

/// `b` is the damage context `a` where the actor that `which_actor` names has
/// gained `statuses`, the world has gained `damages` and `spawns`, and
/// nothing else has changed.
pub open spec fn damage_context_gains(
    a: ActorDamageEffectContext,
    which_actor: DamageActor,
    statuses: Seq<StatusEffect>,
    damages: Seq<DamageEvent>,
    spawns: Seq<SpawnRequest>,
    b: ActorDamageEffectContext,
) -> bool {
    &&& world_gains(a.world_access, damages, spawns, b.world_access)
    &&& if which_actor == DamageActor::Victim && a.victim is Some {
        &&& b.victim is Some
        &&& actor_gains(a.victim->0, statuses, b.victim->0)
        &&& b.instigator == a.instigator
    } else {
        &&& actor_gains(a.instigator, statuses, b.instigator)
        &&& b.victim == a.victim
    }
}

/// `b` is the damage context `a` where the actor that `which_actor` names has
/// had `effect` applied to it.
pub open spec fn damage_context_applies(a: ActorDamageEffectContext, which_actor: DamageActor, effect: SerializedActorEffect, b: ActorDamageEffectContext) -> bool {
    let actor = named_actor(a, which_actor);
    damage_context_gains(a, which_actor, effect_statuses(effect), effect_damages(effect, actor.entity),
        effect_spawns(effect, actor.entity, actor.location.0), b)
}

/// `b` is the damage context `a` unchanged but for its world's requests.
pub open spec fn same_damage_context(a: ActorDamageEffectContext, b: ActorDamageEffectContext) -> bool {
    &&& b.instigator == a.instigator
    &&& b.victim == a.victim
    &&& b.world_access.damage_instances@ == a.world_access.damage_instances@
    &&& b.world_access.spawn_requests@ == a.world_access.spawn_requests@
}

/// Applies `effect` to the actor that `which_actor` names.
fn apply_to_named_actor(context: &mut ActorDamageEffectContext, which_actor: DamageActor, effect: &SerializedActorEffect)
    ensures
        damage_context_applies(*old(context), which_actor, *effect, *final(context)),
{
    let (world_access, actor) = context.actor_values(which_actor);
    apply_actor_effect(effect, world_access, actor);
}

impl SerializedDamageViewEffect {
    /// Lets this effect see damage done (negative for healing).
    ///
    /// The every-X effects accumulate what they see: damage above zero, or
    /// healing (damage below zero, negated). The sums are floating-point
    /// arithmetic and come from the caller: `accumulated` is the accumulator
    /// with what this effect sees added, `remainder` that minus the threshold.
    /// Once the threshold is reached (`threshold <= accumulated`) the
    /// accumulator keeps the remainder and the inner effect applies to the
    /// actor that `which_actor` names; else it keeps `accumulated`.
    /// `SpawnObjectAt` spawns its object where the named actor is, on its
    /// behalf. A regular effect applies its effect to the actor that
    /// `dmg_actor` names: the actor whose damage-viewing effect this is.
    pub fn apply_effect(&mut self, context: &mut ActorDamageEffectContext, dmg_actor: DamageActor, accumulated: Float, remainder: Float)
        ensures
            match *old(self) {
                SerializedDamageViewEffect::EveryXDamageEffect { accumulated_damage, damage_threshold, which_actor, effect } =>
                    if damage_threshold.spec_le(accumulated) {
                        &&& *final(self) == (SerializedDamageViewEffect::EveryXDamageEffect {
                                accumulated_damage: remainder, damage_threshold, which_actor, effect })
                        &&& damage_context_applies(*old(context), which_actor, effect, *final(context))
                    } else {
                        &&& *final(self) == (SerializedDamageViewEffect::EveryXDamageEffect {
                                accumulated_damage: accumulated, damage_threshold, which_actor, effect })
                        &&& same_damage_context(*old(context), *final(context))
                    },
                SerializedDamageViewEffect::EveryXHealedEffect { accumulated_healing, healing_threshold, which_actor, effect } =>
                    if healing_threshold.spec_le(accumulated) {
                        &&& *final(self) == (SerializedDamageViewEffect::EveryXHealedEffect {
                                accumulated_healing: remainder, healing_threshold, which_actor, effect })
                        &&& damage_context_applies(*old(context), which_actor, effect, *final(context))
                    } else {
                        &&& *final(self) == (SerializedDamageViewEffect::EveryXHealedEffect {
                                accumulated_healing: accumulated, healing_threshold, which_actor, effect })
                        &&& same_damage_context(*old(context), *final(context))
                    },
                SerializedDamageViewEffect::SpawnObjectAt { which_actor, spawn_type } => {
                    let actor = named_actor(*old(context), which_actor);
                    &&& *final(self) == *old(self)
                    &&& damage_context_gains(*old(context), which_actor, Seq::empty(), Seq::empty(),
                            seq![SpawnRequest { spawn_type, location: actor.location.0, owner: actor.entity }], *final(context))
                },
                SerializedDamageViewEffect::RegularEffect { effect } => {
                    &&& *final(self) == *old(self)
                    &&& damage_context_applies(*old(context), dmg_actor, effect, *final(context))
                },
            },
    {
        match self {
            SerializedDamageViewEffect::EveryXDamageEffect { accumulated_damage, damage_threshold, which_actor, effect } => {
                if damage_threshold.less_or_equal(&accumulated) {
                    *accumulated_damage = remainder;
                    apply_to_named_actor(context, *which_actor, effect);
                } else {
                    *accumulated_damage = accumulated;
                }
            },
            SerializedDamageViewEffect::EveryXHealedEffect { accumulated_healing, healing_threshold, which_actor, effect } => {
                if healing_threshold.less_or_equal(&accumulated) {
                    *accumulated_healing = remainder;
                    apply_to_named_actor(context, *which_actor, effect);
                } else {
                    *accumulated_healing = accumulated;
                }
            },
            SerializedDamageViewEffect::SpawnObjectAt { which_actor, spawn_type } => {
                let ghost before = *context;
                let (world_access, actor) = context.actor_values(*which_actor);
                let location = actor.location.0;
                let owner = actor.entity;
                do_spawn_object(world_access, *spawn_type, location, owner);
                proof {
                    let a = named_actor(before, *which_actor);
                    assert(a.context.status_effects@ + Seq::<StatusEffect>::empty() =~= a.context.status_effects@);
                }
                assert(context.world_access.damage_instances@ =~= before.world_access.damage_instances@ + Seq::<DamageEvent>::empty());
                assert(context.world_access.spawn_requests@ =~= before.world_access.spawn_requests@
                    + seq![SpawnRequest { spawn_type: *spawn_type, location, owner }]);
            },
            SerializedDamageViewEffect::RegularEffect { effect } => {
                apply_to_named_actor(context, dmg_actor, effect);
            },
        }
    }
}

pub proof fn lemma_flat_map_append<A, B>(s1: Seq<A>, s2: Seq<A>, f: spec_fn(A) -> Seq<B>)
    ensures
        flat_map(s1 + s2, f) == flat_map(s1, f) + flat_map(s2, f),
    decreases s2.len(),
{
    if s2.len() == 0 {
        assert(s1 + s2 =~= s1);
        assert(flat_map(s1, f) + flat_map(s2, f) =~= flat_map(s1, f));
    } else {
        lemma_flat_map_append(s1, s2.drop_last(), f);
        assert((s1 + s2).drop_last() =~= s1 + s2.drop_last());
        assert((s1 + s2).last() == s2.last());
        assert(flat_map(s1, f) + flat_map(s2, f) =~= flat_map(s1, f) + flat_map(s2.drop_last(), f) + f(s2.last()));
    }
}

/// Adding effect triggers to an actor adds the effects they fire on casting
/// an ability after those the actor's earlier triggers fire.
pub proof fn lemma_cast_effects_of_added_triggers(triggers: Seq<SerializedEffectTrigger>, added: Seq<SerializedEffectTrigger>, ability: ChildType)
    ensures
        ability_cast_effects(triggers + added, ability) == ability_cast_effects(triggers, ability) + ability_cast_effects(added, ability),
{
    lemma_flat_map_append(triggers, added, |t: SerializedEffectTrigger| match t {
        SerializedEffectTrigger::OnAbilityCast { ability_type, effect } =>
            if ability_type == ability { seq![effect] } else { Seq::empty() },
        _ => Seq::empty(),
    });
}

proof fn lemma_flat_map_empty<A, B>(s: Seq<A>, f: spec_fn(A) -> Seq<B>)
    requires
        forall|i: int| 0 <= i < s.len() ==> f(#[trigger] s[i]).len() == 0,
    ensures
        flat_map(s, f).len() == 0,
    decreases s.len(),
{
    if s.len() > 0 {
        assert forall|i: int| 0 <= i < s.drop_last().len() implies f(#[trigger] s.drop_last()[i]).len() == 0 by {
            assert(s.drop_last()[i] == s[i]);
        }
        lemma_flat_map_empty(s.drop_last(), f);
        assert(f(s[s.len() - 1]).len() == 0);
    }
}

/// Casting an ability for which the actor has no on-cast trigger applies no effect.
pub proof fn lemma_no_cast_trigger_no_effect(triggers: Seq<SerializedEffectTrigger>, ability: ChildType)
    requires
        forall|i: int| 0 <= i < triggers.len() ==> !(#[trigger] triggers[i] matches SerializedEffectTrigger::OnAbilityCast { ability_type, .. } && ability_type == ability),
    ensures
        ability_cast_effects(triggers, ability).len() == 0,
        all_statuses(ability_cast_effects(triggers, ability)).len() == 0,
{
    let f = |t: SerializedEffectTrigger| match t {
        SerializedEffectTrigger::OnAbilityCast { ability_type, effect } =>
            if ability_type == ability { seq![effect] } else { Seq::empty() },
        _ => Seq::empty(),
    };
    assert forall|i: int| 0 <= i < triggers.len() implies f(#[trigger] triggers[i]).len() == 0 by {
        assert(!(triggers[i] matches SerializedEffectTrigger::OnAbilityCast { ability_type, .. } && ability_type == ability));
    }
    lemma_flat_map_empty(triggers, f);
    assert(ability_cast_effects(triggers, ability) =~= Seq::<SerializedActorEffect>::empty());
}

/// Every effect that inflicts a status effect adds exactly that status
/// effect, so a run of such effects adds one status effect each, in order.
pub proof fn lemma_inflicted_statuses(statuses: Seq<StatusEffect>)
    ensures
        all_statuses(statuses.map_values(|s: StatusEffect| SerializedActorEffect::InflictStatusEffect(s))) == statuses,
    decreases statuses.len(),
{
    let f = |s: StatusEffect| SerializedActorEffect::InflictStatusEffect(s);
    if statuses.len() > 0 {
        lemma_inflicted_statuses(statuses.drop_last());
        assert(statuses.map_values(f).drop_last() =~= statuses.drop_last().map_values(f));
        assert(statuses.drop_last().push(statuses.last()) =~= statuses);
    } else {
        assert(statuses.map_values(f) =~= Seq::<SerializedActorEffect>::empty());
    }
}


/// What each actor effect asks for, applied to the actor `actor` at
/// `location`: changing health by `h` is damage of `-h` the actor deals
/// itself (healing for a positive `h`); inflicting a status effect adds just
/// that status effect; spawning asks for the object where the actor is, on
/// its behalf. Each asks for nothing else.
pub proof fn lemma_actor_effect_requests(h: Float, s: StatusEffect, t: SpawnType, l: SpawnLocation, actor: Entity, location: Vec2)
    ensures
        effect_damages(SerializedActorEffect::AffectHealth(h), actor)
            == seq![DamageEvent { instigator: actor, victim: actor, damage: h.spec_neg() }],
        effect_statuses(SerializedActorEffect::AffectHealth(h)).len() == 0,
        effect_spawns(SerializedActorEffect::AffectHealth(h), actor, location).len() == 0,
        effect_statuses(SerializedActorEffect::InflictStatusEffect(s)) == seq![s],
        effect_damages(SerializedActorEffect::InflictStatusEffect(s), actor).len() == 0,
        effect_spawns(SerializedActorEffect::InflictStatusEffect(s), actor, location).len() == 0,
        effect_spawns(SerializedActorEffect::SpawnEffect(t, l), actor, location)
            == seq![SpawnRequest { spawn_type: t, location, owner: actor }],
        effect_statuses(SerializedActorEffect::SpawnEffect(t, l)).len() == 0,
        effect_damages(SerializedActorEffect::SpawnEffect(t, l), actor).len() == 0,
{
}

/// An on-hit regular effect does to the instigator just what its actor
/// effect does when applied to the instigator; spawning at the hit location
/// asks for the object where the hit was, on the instigator's behalf, and
/// nothing else.
pub proof fn lemma_hit_effect_requests(e: SerializedActorEffect, t: SpawnType, instigator: Entity, location: Vec2, hit_location: Vec2)
    ensures
        hit_statuses(SerializedOnHitEffect::RegularEffect { effect: e }) == effect_statuses(e),
        hit_damages(SerializedOnHitEffect::RegularEffect { effect: e }, instigator) == effect_damages(e, instigator),
        hit_spawns(SerializedOnHitEffect::RegularEffect { effect: e }, instigator, location, hit_location)
            == effect_spawns(e, instigator, location),
        hit_spawns(SerializedOnHitEffect::SpawnEffectAtHitLocation { spawn_type: t }, instigator, location, hit_location)
            == seq![SpawnRequest { spawn_type: t, location: hit_location, owner: instigator }],
        hit_statuses(SerializedOnHitEffect::SpawnEffectAtHitLocation { spawn_type: t }).len() == 0,
        hit_damages(SerializedOnHitEffect::SpawnEffectAtHitLocation { spawn_type: t }, instigator).len() == 0,
{
}

/// An actor whose one trigger changes its health by `h` when an ability of
/// its hits asks, on such a hit, for exactly one damage event: `-h` it deals
/// itself. A hit of another kind of ability asks for nothing.
pub proof fn lemma_on_hit_health_change(h: Float, ability: ChildType, other: ChildType, actor: Entity)
    requires
        other != ability,
    ensures
        ({
            let triggers = seq![SerializedEffectTrigger::OnAbilityHit {
                ability_type: ability,
                effect: SerializedOnHitEffect::RegularEffect { effect: SerializedActorEffect::AffectHealth(h) },
            }];
            &&& all_hit_damages(ability_hit_effects(triggers, ability), actor)
                    == seq![DamageEvent { instigator: actor, victim: actor, damage: h.spec_neg() }]
            &&& all_hit_damages(ability_hit_effects(triggers, other), actor).len() == 0
        }),
{
    let hit = SerializedOnHitEffect::RegularEffect { effect: SerializedActorEffect::AffectHealth(h) };
    let triggers = seq![SerializedEffectTrigger::OnAbilityHit { ability_type: ability, effect: hit }];
    reveal_with_fuel(flat_map, 2);
    assert(triggers.drop_last() =~= Seq::<SerializedEffectTrigger>::empty());
    assert(triggers.last() == SerializedEffectTrigger::OnAbilityHit { ability_type: ability, effect: hit });
    let hits = ability_hit_effects(triggers, ability);
    assert(hits =~= Seq::<SerializedOnHitEffect>::empty() + seq![hit]);
    assert(hits =~= seq![hit]);
    assert(hits.last() == hit);
    assert(hits.drop_last() =~= Seq::<SerializedOnHitEffect>::empty());
    assert(all_hit_damages(hits, actor) =~= Seq::<DamageEvent>::empty() + hit_damages(hit, actor));
    assert(all_hit_damages(hits, actor) =~= seq![DamageEvent { instigator: actor, victim: actor, damage: h.spec_neg() }]);
    let none = ability_hit_effects(triggers, other);
    assert(none =~= Seq::<SerializedOnHitEffect>::empty() + Seq::<SerializedOnHitEffect>::empty());
    assert(none =~= Seq::<SerializedOnHitEffect>::empty());
}

} // verus!
