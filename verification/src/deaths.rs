use vstd::prelude::*;

use crate::actor::{ActorChild, DamageEvent, DamageSource, Entity};
use crate::effect::ChildType;
use crate::effect_application::{
    ability_end_effects, actor_gains, all_damages, all_spawns, all_statuses, apply_on_ability_end_effects,
    apply_on_death_effects, apply_on_kill_effects, death_effects, flat_map, kill_effects, lemma_flat_map_all,
    lemma_flat_map_take, world_gains, ActorDeathEffectContext, ActorEffectContext, ActorKillEffectContext, ActorReference,
    EffectContextWorldAccess, SpawnRequest,
};
use crate::stats::StatusEffect;

verus! {

/// Where the killer of a dying actor is to be found.
#[derive(Clone, Copy, Debug, PartialEq, Eq, Structural)]
pub enum KillerLocation {
    /// Among the living actors, at this index.
    Living(usize),
    /// Among the dying actors, at this index.
    Dying(usize),
    /// The actor died of something other than an actor.
    NoKiller,
    /// The killer is neither alive nor dying, or is the dying actor itself;
    /// such a death applies no effects at all.
    NotFound,
}

/// The first index of `entity` in `entities`, if any.
pub open spec fn first_index(entities: Seq<Entity>, entity: Entity) -> Option<int> {
    if exists|i: int| 0 <= i < entities.len() && entities[i] == entity {
        Some(choose|i: int| 0 <= i < entities.len() && entities[i] == entity
            && forall|j: int| 0 <= j < i ==> entities[j] != entity)
    } else {
        None
    }
}

pub(crate) fn find(entities: &Vec<Entity>, entity: Entity) -> (r: Option<usize>)
    ensures
        r matches Some(i) ==> i < entities@.len() && entities@[i as int] == entity
            && forall|j: int| 0 <= j < i ==> entities@[j] != entity,
        r is None ==> forall|j: int| 0 <= j < entities@.len() ==> entities@[j] != entity,
{
    let mut i: usize = 0;
    while i < entities.len()
        invariant
            i <= entities@.len(),
            forall|j: int| 0 <= j < i ==> entities@[j] != entity,
        decreases entities@.len() - i,
    {
        if entities[i] == entity {
            return Some(i);
        }
        i = i + 1;
    }
    None
}

pub(crate) proof fn lemma_first_index(entities: Seq<Entity>, entity: Entity, i: int)
    requires
        0 <= i < entities.len(),
        entities[i] == entity,
        forall|j: int| 0 <= j < i ==> entities[j] != entity,
    ensures
        first_index(entities, entity) == Some(i),
{
    let k = choose|k: int| 0 <= k < entities.len() && entities[k] == entity && forall|j: int| 0 <= j < k ==> entities[j] != entity;
    assert(entities[k] == entity);
    if k < i {
        assert(entities[k] != entity);
    }
    if i < k {
        assert(entities[i] != entity);
    }
}

/// Where to find the killer of the dying actor at `victim`, whose last damage
/// came from `source`: among the living first, then among the dying (but not
/// the victim itself).
pub open spec fn killer_location(source: Option<DamageSource>, victim: int, living: Seq<Entity>, dying: Seq<Entity>) -> KillerLocation {
    match source {
        Some(DamageSource::Actor(killer)) =>
            match first_index(living, killer) {
                Some(j) => KillerLocation::Living(j as usize),
                None => match first_index(dying, killer) {
                    Some(k) => if k == victim { KillerLocation::NotFound } else { KillerLocation::Dying(k as usize) },
                    None => KillerLocation::NotFound,
                },
            },
        _ => KillerLocation::NoKiller,
    }
}

/// Finds the killer of the dying actor at index `victim` of `dying`.
pub fn find_killer(source: Option<DamageSource>, victim: usize, living: &Vec<Entity>, dying: &Vec<Entity>) -> (r: KillerLocation)
    ensures
        r == killer_location(source, victim as int, living@, dying@),
        killer_in_range(r, victim as int, living@.len() as int, dying@.len() as int),
{
    match source {
        Some(DamageSource::Actor(killer)) => {
            match find(living, killer) {
                Some(j) => {
                    proof { lemma_first_index(living@, killer, j as int); }
                    KillerLocation::Living(j)
                },
                None => {
                    match find(dying, killer) {
                        Some(k) => {
                            proof { lemma_first_index(dying@, killer, k as int); }
                            if k == victim { KillerLocation::NotFound } else { KillerLocation::Dying(k) }
                        },
                        None => KillerLocation::NotFound,
                    }
                },
            }
        },
        _ => KillerLocation::NoKiller,
    }
}

/// Plays out a death: with a killer, the killer's on-kill effects apply to it
/// and then the victim's on-death effects to the victim; without one, only
/// the victim's on-death effects.
pub fn resolve_death(victim: ActorReference, killer: Option<ActorReference>, world_access: EffectContextWorldAccess)
    -> (r: (ActorReference, Option<ActorReference>, EffectContextWorldAccess))
    ensures
        ({
            let deaths = death_effects(victim.context.effects@);
            let (v, k, w) = r;
            &&& actor_gains(victim, all_statuses(deaths), v)
            &&& match killer {
                Some(kr) => {
                    let kills = kill_effects(kr.context.effects@);
                    &&& k is Some
                    &&& actor_gains(kr, all_statuses(kills), k->0)
                    &&& world_gains(world_access,
                            all_damages(kills, kr.entity) + all_damages(deaths, victim.entity),
                            all_spawns(kills, kr.entity, kr.location.0) + all_spawns(deaths, victim.entity, victim.location.0), w)
                },
                None => {
                    &&& k is None
                    &&& world_gains(world_access, all_damages(deaths, victim.entity),
                            all_spawns(deaths, victim.entity, victim.location.0), w)
                },
            }
        }),
{
    match killer {
        Some(killer) => {
            let mut kill = ActorKillEffectContext { world_access, instigator: killer, victim };
            apply_on_kill_effects(&mut kill);
            let mut death = ActorDeathEffectContext { world_access: kill.world_access, instigator: Some(kill.instigator), victim: kill.victim };
            apply_on_death_effects(&mut death);
            assert(death.world_access.damage_instances@ =~= world_access.damage_instances@
                + (all_damages(kill_effects(killer.context.effects@), killer.entity) + all_damages(death_effects(victim.context.effects@), victim.entity)));
            assert(death.world_access.spawn_requests@ =~= world_access.spawn_requests@
                + (all_spawns(kill_effects(killer.context.effects@), killer.entity, killer.location.0)
                    + all_spawns(death_effects(victim.context.effects@), victim.entity, victim.location.0)));
            (death.victim, death.instigator, death.world_access)
        },
        None => {
            let mut death = ActorDeathEffectContext { world_access, instigator: None, victim };
            apply_on_death_effects(&mut death);
            (death.victim, death.instigator, death.world_access)
        },
    }
}


/// Where an actor of a frame's clean-up stands: among the living actors or
/// among those dying this frame, at an index.
#[derive(Clone, Copy, Debug, PartialEq, Eq, Structural)]
pub enum ActorSlot {
    Living(usize),
    Dying(usize),
}

/// The entities of `actors`, in order.
pub open spec fn actor_entities(actors: Seq<ActorReference>) -> Seq<Entity> {
    actors.map_values(|a: ActorReference| a.entity)
}

/// The actor at `slot`.
pub open spec fn slot_actor(living: Seq<ActorReference>, dying: Seq<ActorReference>, slot: ActorSlot) -> ActorReference {
    match slot {
        ActorSlot::Living(i) => living[i as int],
        ActorSlot::Dying(k) => dying[k as int],
    }
}

/// The actor whose on-end effects fire when the ability `child` (its entity
/// and its link to its actor) ends: its parent among the living, else the
/// dying actor that is the child entity itself, if any.
pub open spec fn end_slot(living: Seq<Entity>, dying: Seq<Entity>, child: (Entity, ActorChild)) -> Option<ActorSlot> {
    match first_index(living, child.1.parent_actor) {
        Some(i) => Some(ActorSlot::Living(i as usize)),
        None => match first_index(dying, child.0) {
            Some(k) => Some(ActorSlot::Dying(k as usize)),
            None => None,
        },
    }
}

/// The status effects the actor `a` at `slot` gains when the ability `child`
/// ends: those of its on-end effects for that kind of ability if the ability
/// is its own, else none.
pub open spec fn end_status_fn(living: Seq<ActorReference>, dying: Seq<ActorReference>, slot: ActorSlot, a: ActorReference)
    -> spec_fn((Entity, ActorChild)) -> Seq<StatusEffect> {
    |c: (Entity, ActorChild)|
        if end_slot(actor_entities(living), actor_entities(dying), c) == Some(slot) {
            all_statuses(ability_end_effects(a.context.effects@, c.1.ability_type))
        } else {
            Seq::empty()
        }
}

/// The damage requested when the ability `child` ends.
pub open spec fn end_damage_fn(living: Seq<ActorReference>, dying: Seq<ActorReference>)
    -> spec_fn((Entity, ActorChild)) -> Seq<DamageEvent> {
    |c: (Entity, ActorChild)|
        match end_slot(actor_entities(living), actor_entities(dying), c) {
            Some(slot) => {
                let a = slot_actor(living, dying, slot);
                all_damages(ability_end_effects(a.context.effects@, c.1.ability_type), a.entity)
            },
            None => Seq::empty(),
        }
}

/// The objects requested when the ability `child` ends.
pub open spec fn end_spawn_fn(living: Seq<ActorReference>, dying: Seq<ActorReference>)
    -> spec_fn((Entity, ActorChild)) -> Seq<SpawnRequest> {
    |c: (Entity, ActorChild)|
        match end_slot(actor_entities(living), actor_entities(dying), c) {
            Some(slot) => {
                let a = slot_actor(living, dying, slot);
                all_spawns(ability_end_effects(a.context.effects@, c.1.ability_type), a.entity, a.location.0)
            },
            None => Seq::empty(),
        }
}

/// The entities of `actors`, in order.
pub(crate) fn entities_of(actors: &Vec<ActorReference>) -> (r: Vec<Entity>)
    ensures
        r@ == actor_entities(actors@),
{
    let mut r: Vec<Entity> = Vec::new();
    let mut i: usize = 0;
    while i < actors.len()
        invariant
            i <= actors@.len(),
            r@.len() == i,
            forall|j: int| 0 <= j < i ==> r@[j] == actors@[j].entity,
        decreases actors@.len() - i,
    {
        r.push(actors[i].entity);
        i = i + 1;
    }
    assert(r@ =~= actor_entities(actors@));
    r
}

/// Finds the actor whose on-end effects fire when the ability `child` ends.
fn find_end_slot(living: &Vec<Entity>, dying: &Vec<Entity>, child: (Entity, ActorChild)) -> (r: Option<ActorSlot>)
    ensures
        r == end_slot(living@, dying@, child),
        r matches Some(ActorSlot::Living(i)) ==> i < living@.len(),
        r matches Some(ActorSlot::Dying(k)) ==> k < dying@.len(),
{
    match find(living, child.1.parent_actor) {
        Some(i) => {
            proof { lemma_first_index(living@, child.1.parent_actor, i as int); }
            Some(ActorSlot::Living(i))
        },
        None => match find(dying, child.0) {
            Some(k) => {
                proof { lemma_first_index(dying@, child.0, k as int); }
                Some(ActorSlot::Dying(k))
            },
            None => None,
        },
    }
}

pub(crate) proof fn lemma_gains_then(a: ActorReference, s1: Seq<StatusEffect>, b: ActorReference, s2: Seq<StatusEffect>, c: ActorReference)
    requires
        actor_gains(a, s1, b),
        actor_gains(b, s2, c),
    ensures
        actor_gains(a, s1 + s2, c),
{
    assert(a.context.status_effects@ + s1 + s2 =~= a.context.status_effects@ + (s1 + s2));
}

pub(crate) proof fn lemma_gains_nothing_more(a: ActorReference, s: Seq<StatusEffect>, b: ActorReference)
    requires
        actor_gains(a, s, b),
    ensures
        actor_gains(a, s + Seq::empty(), b),
{
    assert(s + Seq::empty() =~= s);
}

pub(crate) proof fn lemma_world_gains_then(
    a: EffectContextWorldAccess, d1: Seq<DamageEvent>, p1: Seq<SpawnRequest>, b: EffectContextWorldAccess,
    d2: Seq<DamageEvent>, p2: Seq<SpawnRequest>, c: EffectContextWorldAccess,
)
    requires
        world_gains(a, d1, p1, b),
        world_gains(b, d2, p2, c),
    ensures
        world_gains(a, d1 + d2, p1 + p2, c),
{
    assert(a.damage_instances@ + d1 + d2 =~= a.damage_instances@ + (d1 + d2));
    assert(a.spawn_requests@ + p1 + p2 =~= a.spawn_requests@ + (p1 + p2));
}

/// Lets the actor at index `i` of `actors` end an ability of type `ability`.
fn end_ability_at(actors: &mut Vec<ActorReference>, i: usize, ability: ChildType, world_access: EffectContextWorldAccess)
    -> (w: EffectContextWorldAccess)
    requires
        i < old(actors)@.len(),
    ensures
        final(actors)@.len() == old(actors)@.len(),
        forall|j: int| 0 <= j < old(actors)@.len() && j != i ==> final(actors)@[j] == old(actors)@[j],
        ({
            let a = old(actors)@[i as int];
            let effects = ability_end_effects(a.context.effects@, ability);
            &&& actor_gains(a, all_statuses(effects), final(actors)@[i as int])
            &&& world_gains(world_access, all_damages(effects, a.entity), all_spawns(effects, a.entity, a.location.0), w)
        }),
{
    let actor = actors.remove(i);
    let mut context = ActorEffectContext { world_access, actor };
    apply_on_ability_end_effects(ability, &mut context);
    actors.insert(i, context.actor);
    context.world_access
}


/// The actor that a killer location names, if it names one.
pub open spec fn killer_slot(kl: KillerLocation) -> Option<ActorSlot> {
    match kl {
        KillerLocation::Living(j) => Some(ActorSlot::Living(j)),
        KillerLocation::Dying(k) => Some(ActorSlot::Dying(k)),
        _ => None,
    }
}

/// `kl` names an actor that exists, and not the victim at `v`.
pub open spec fn killer_in_range(kl: KillerLocation, v: int, living_len: int, dying_len: int) -> bool {
    match kl {
        KillerLocation::Living(j) => j < living_len,
        KillerLocation::Dying(k) => k < dying_len && k != v,
        _ => true,
    }
}

/// The status effects the actor `a` at `slot` gains in the death of the
/// dying actor at `v`, whose killer is at `kl`: its on-kill effects' if it
/// is the killer, then its on-death effects' if it is the victim and the
/// death applies effects.
pub open spec fn death_statuses(kl: KillerLocation, v: int, slot: ActorSlot, a: ActorReference) -> Seq<StatusEffect> {
    (if killer_slot(kl) == Some(slot) { all_statuses(kill_effects(a.context.effects@)) } else { Seq::empty() })
    + (if slot == ActorSlot::Dying(v as usize) && kl != KillerLocation::NotFound {
        all_statuses(death_effects(a.context.effects@))
    } else {
        Seq::empty()
    })
}

/// The damage requested in the death of the dying actor at `v`, whose killer
/// is at `kl`: the killer's on-kill damage, then the victim's on-death damage.
pub open spec fn death_damages(kl: KillerLocation, living: Seq<ActorReference>, dying: Seq<ActorReference>, v: int) -> Seq<DamageEvent> {
    let victim = dying[v];
    let deaths = all_damages(death_effects(victim.context.effects@), victim.entity);
    match killer_slot(kl) {
        Some(slot) => {
            let k = slot_actor(living, dying, slot);
            all_damages(kill_effects(k.context.effects@), k.entity) + deaths
        },
        None => if kl == KillerLocation::NotFound { Seq::empty() } else { deaths },
    }
}

/// The objects requested in the death of the dying actor at `v`, whose
/// killer is at `kl`: the killer's on-kill spawns, then the victim's on-death
/// spawns.
pub open spec fn death_spawns(kl: KillerLocation, living: Seq<ActorReference>, dying: Seq<ActorReference>, v: int) -> Seq<SpawnRequest> {
    let victim = dying[v];
    let deaths = all_spawns(death_effects(victim.context.effects@), victim.entity, victim.location.0);
    match killer_slot(kl) {
        Some(slot) => {
            let k = slot_actor(living, dying, slot);
            all_spawns(kill_effects(k.context.effects@), k.entity, k.location.0) + deaths
        },
        None => if kl == KillerLocation::NotFound { Seq::empty() } else { deaths },
    }
}

/// Plays out the death of the dying actor at `v`, whose killer is at `kl`.
fn die_at(
    living: &mut Vec<ActorReference>,
    dying: &mut Vec<ActorReference>,
    v: usize,
    kl: KillerLocation,
    world_access: EffectContextWorldAccess,
) -> (w: EffectContextWorldAccess)
    requires
        v < old(dying)@.len(),
        killer_in_range(kl, v as int, old(living)@.len() as int, old(dying)@.len() as int),
    ensures
        final(living)@.len() == old(living)@.len(),
        final(dying)@.len() == old(dying)@.len(),
        forall|i: int| 0 <= i < old(living)@.len() ==> actor_gains(old(living)@[i],
            death_statuses(kl, v as int, ActorSlot::Living(i as usize), old(living)@[i]), #[trigger] final(living)@[i]),
        forall|k: int| 0 <= k < old(dying)@.len() ==> actor_gains(old(dying)@[k],
            death_statuses(kl, v as int, ActorSlot::Dying(k as usize), old(dying)@[k]), #[trigger] final(dying)@[k]),
        world_gains(world_access, death_damages(kl, old(living)@, old(dying)@, v as int),
            death_spawns(kl, old(living)@, old(dying)@, v as int), w),
{
    let ghost l0 = living@;
    let ghost d0 = dying@;
    assert(l0.len() == living.len() && d0.len() == dying.len());
    match kl {
        KillerLocation::NotFound => {
            assert forall|i: int| 0 <= i < l0.len() implies actor_gains(l0[i],
                death_statuses(kl, v as int, ActorSlot::Living(i as usize), l0[i]), #[trigger] living@[i]) by {
                assert(l0[i].context.status_effects@ + (Seq::<StatusEffect>::empty() + Seq::empty()) =~= l0[i].context.status_effects@);
            }
            assert forall|k: int| 0 <= k < d0.len() implies actor_gains(d0[k],
                death_statuses(kl, v as int, ActorSlot::Dying(k as usize), d0[k]), #[trigger] dying@[k]) by {
                assert(d0[k].context.status_effects@ + (Seq::<StatusEffect>::empty() + Seq::empty()) =~= d0[k].context.status_effects@);
            }
            assert(world_access.damage_instances@ + Seq::<DamageEvent>::empty() =~= world_access.damage_instances@);
            assert(world_access.spawn_requests@ + Seq::<SpawnRequest>::empty() =~= world_access.spawn_requests@);
            world_access
        },
        KillerLocation::NoKiller => {
            let victim = dying.remove(v);
            let (vr, _kr, w) = resolve_death(victim, None, world_access);
            dying.insert(v, vr);
            assert(dying@ =~= d0.update(v as int, vr));
            assert forall|i: int| 0 <= i < l0.len() implies actor_gains(l0[i],
                death_statuses(kl, v as int, ActorSlot::Living(i as usize), l0[i]), #[trigger] living@[i]) by {
                assert(l0[i].context.status_effects@ + (Seq::<StatusEffect>::empty() + Seq::empty()) =~= l0[i].context.status_effects@);
            }
            assert forall|k: int| 0 <= k < d0.len() implies actor_gains(d0[k],
                death_statuses(kl, v as int, ActorSlot::Dying(k as usize), d0[k]), #[trigger] dying@[k]) by {
                if k == v {
                    let s = all_statuses(death_effects(d0[k].context.effects@));
                    assert(Seq::<StatusEffect>::empty() + s =~= s);
                } else {
                    assert(d0[k].context.status_effects@ + (Seq::<StatusEffect>::empty() + Seq::empty()) =~= d0[k].context.status_effects@);
                }
            }
            w
        },
        KillerLocation::Living(j) => {
            let victim = dying.remove(v);
            let killer = living.remove(j);
            let (vr, kr, w) = resolve_death(victim, Some(killer), world_access);
            dying.insert(v, vr);
            match kr {
                Some(k) => {
                    living.insert(j, k);
                    assert(living@ =~= l0.update(j as int, k));
                },
                None => {},
            }
            assert(dying@ =~= d0.update(v as int, vr));
            assert forall|i: int| 0 <= i < l0.len() implies actor_gains(l0[i],
                death_statuses(kl, v as int, ActorSlot::Living(i as usize), l0[i]), #[trigger] living@[i]) by {
                if i == j {
                    let s = all_statuses(kill_effects(l0[i].context.effects@));
                    assert(s + Seq::<StatusEffect>::empty() =~= s);
                } else {
                    assert(l0[i].context.status_effects@ + (Seq::<StatusEffect>::empty() + Seq::empty()) =~= l0[i].context.status_effects@);
                }
            }
            assert forall|k: int| 0 <= k < d0.len() implies actor_gains(d0[k],
                death_statuses(kl, v as int, ActorSlot::Dying(k as usize), d0[k]), #[trigger] dying@[k]) by {
                if k == v {
                    let s = all_statuses(death_effects(d0[k].context.effects@));
                    assert(Seq::<StatusEffect>::empty() + s =~= s);
                } else {
                    assert(d0[k].context.status_effects@ + (Seq::<StatusEffect>::empty() + Seq::empty()) =~= d0[k].context.status_effects@);
                }
            }
            w
        },
        KillerLocation::Dying(kk) => {
            let ghost mut gv: ActorReference = d0[v as int];
            let ghost mut gk: ActorReference = d0[kk as int];
            let w = if kk < v {
                let victim = dying.remove(v);
                let killer = dying.remove(kk);
                let (vr, kr, w) = resolve_death(victim, Some(killer), world_access);
                proof { gv = vr; gk = kr->0; }
                match kr {
                    Some(k) => {
                        dying.insert(kk, k);
                    },
                    None => {},
                }
                dying.insert(v, vr);
                w
            } else {
                let killer = dying.remove(kk);
                let victim = dying.remove(v);
                let (vr, kr, w) = resolve_death(victim, Some(killer), world_access);
                proof { gv = vr; gk = kr->0; }
                dying.insert(v, vr);
                match kr {
                    Some(k) => {
                        dying.insert(kk, k);
                    },
                    None => {},
                }
                w
            };
            assert(dying@ =~= d0.update(v as int, gv).update(kk as int, gk));
            assert forall|i: int| 0 <= i < l0.len() implies actor_gains(l0[i],
                death_statuses(kl, v as int, ActorSlot::Living(i as usize), l0[i]), #[trigger] living@[i]) by {
                assert(l0[i].context.status_effects@ + (Seq::<StatusEffect>::empty() + Seq::empty()) =~= l0[i].context.status_effects@);
            }
            assert forall|k: int| 0 <= k < d0.len() implies actor_gains(d0[k],
                death_statuses(kl, v as int, ActorSlot::Dying(k as usize), d0[k]), #[trigger] dying@[k]) by {
                if k == v {
                    let s = all_statuses(death_effects(d0[k].context.effects@));
                    assert(Seq::<StatusEffect>::empty() + s =~= s);
                } else if k == kk {
                    let s = all_statuses(kill_effects(d0[k].context.effects@));
                    assert(s + Seq::<StatusEffect>::empty() =~= s);
                } else {
                    assert(d0[k].context.status_effects@ + (Seq::<StatusEffect>::empty() + Seq::empty()) =~= d0[k].context.status_effects@);
                }
            }
            w
        },
    }
}


/// The indices `0..n`, in order.
pub open spec fn indices(n: nat) -> Seq<int> {
    Seq::new(n, |v: int| v)
}

/// Where the killer of the dying actor at `v` stands.
pub open spec fn death_killer(living: Seq<ActorReference>, dying: Seq<ActorReference>, v: int) -> KillerLocation {
    killer_location(dying[v].context.last_damage_source, v, actor_entities(living), actor_entities(dying))
}

/// The status effects the actor `a` at `slot` gains in the death of the
/// dying actor at a given index.
pub open spec fn death_status_fn(living: Seq<ActorReference>, dying: Seq<ActorReference>, slot: ActorSlot, a: ActorReference)
    -> spec_fn(int) -> Seq<StatusEffect> {
    |v: int| death_statuses(death_killer(living, dying, v), v, slot, a)
}

/// The damage requested in the death of the dying actor at a given index.
pub open spec fn death_damage_fn(living: Seq<ActorReference>, dying: Seq<ActorReference>) -> spec_fn(int) -> Seq<DamageEvent> {
    |v: int| death_damages(death_killer(living, dying, v), living, dying, v)
}

/// The objects requested in the death of the dying actor at a given index.
pub open spec fn death_spawn_fn(living: Seq<ActorReference>, dying: Seq<ActorReference>) -> spec_fn(int) -> Seq<SpawnRequest> {
    |v: int| death_spawns(death_killer(living, dying, v), living, dying, v)
}

/// All status effects the actor `a` at `slot` gains in a frame's clean-up:
/// first as the abilities of `children` end, in order, then in the deaths of
/// the dying actors, in order.
pub open spec fn cleanup_statuses(
    living: Seq<ActorReference>,
    dying: Seq<ActorReference>,
    children: Seq<(Entity, ActorChild)>,
    slot: ActorSlot,
    a: ActorReference,
) -> Seq<StatusEffect> {
    flat_map(children, end_status_fn(living, dying, slot, a)) + flat_map(indices(dying.len()), death_status_fn(living, dying, slot, a))
}

/// All damage requested in a frame's clean-up, in order.
pub open spec fn cleanup_damages(living: Seq<ActorReference>, dying: Seq<ActorReference>, children: Seq<(Entity, ActorChild)>) -> Seq<DamageEvent> {
    flat_map(children, end_damage_fn(living, dying)) + flat_map(indices(dying.len()), death_damage_fn(living, dying))
}

/// All objects requested in a frame's clean-up, in order.
pub open spec fn cleanup_spawns(living: Seq<ActorReference>, dying: Seq<ActorReference>, children: Seq<(Entity, ActorChild)>) -> Seq<SpawnRequest> {
    flat_map(children, end_spawn_fn(living, dying)) + flat_map(indices(dying.len()), death_spawn_fn(living, dying))
}

/// The clean-up of a frame. First each ended ability (`dead_children`, in
/// order) fires the on-end effects of its parent, if the parent is alive, or
/// else of the dying actor that is the ability's own entity, if any. Then
/// each dying actor, in order, dies: with a killer found (alive first, else
/// dying and not itself) the killer's on-kill effects apply and then its own
/// on-death effects; with no killing actor only the latter; with a killer
/// that is not found, nothing. Everything marked dead is despawned: the
/// ended abilities, the dying actors and `dead_things` (dead entities that
/// are neither), in this order; the last result lists them.
pub fn s_destroy_dead_things(
    living: Vec<ActorReference>,
    dying: Vec<ActorReference>,
    dead_children: &Vec<(Entity, ActorChild)>,
    dead_things: &Vec<Entity>,
    world_access: EffectContextWorldAccess,
) -> (r: (Vec<ActorReference>, Vec<ActorReference>, EffectContextWorldAccess, Vec<Entity>))
    ensures
        r.3@ == despawned(dead_children@, dying@, dead_things@),
        r.0@.len() == living@.len(),
        r.1@.len() == dying@.len(),
        forall|i: int| 0 <= i < living@.len() ==> actor_gains(living@[i],
            cleanup_statuses(living@, dying@, dead_children@, ActorSlot::Living(i as usize), living@[i]), #[trigger] r.0@[i]),
        forall|k: int| 0 <= k < dying@.len() ==> actor_gains(dying@[k],
            cleanup_statuses(living@, dying@, dead_children@, ActorSlot::Dying(k as usize), dying@[k]), #[trigger] r.1@[k]),
        world_gains(world_access, cleanup_damages(living@, dying@, dead_children@),
            cleanup_spawns(living@, dying@, dead_children@), r.2),
{
    let living_entities = entities_of(&living);
    let dying_entities = entities_of(&dying);
    let gone = despawn_list(dead_children, &dying_entities, dead_things);
    let mut living = living;
    let mut dying = dying;
    let ghost l0 = living@;
    let ghost d0 = dying@;
    let ghost ch = dead_children@;
    assert(l0.len() == living.len() && d0.len() == dying.len());
    let world = end_abilities(&mut living, &mut dying, &living_entities, &dying_entities, dead_children, world_access);
    let ghost l1 = living@;
    let ghost d1 = dying@;
    let ghost w1 = world;
    proof {
        assert(same_actors(l0, l1));
        assert(same_actors(d0, d1));
        lemma_entities_same(l0, l1);
        lemma_entities_same(d0, d1);
    }
    let world = die_all(&mut living, &mut dying, &living_entities, &dying_entities, world);
    proof {
        lemma_death_requests_congruent(l0, d0, l1, d1);
        lemma_world_gains_then(world_access, flat_map(ch, end_damage_fn(l0, d0)), flat_map(ch, end_spawn_fn(l0, d0)), w1,
            flat_map(indices(d0.len()), death_damage_fn(l0, d0)), flat_map(indices(d0.len()), death_spawn_fn(l0, d0)), world);
        assert forall|i: int| 0 <= i < l0.len() implies actor_gains(l0[i],
            cleanup_statuses(l0, d0, ch, ActorSlot::Living(i as usize), l0[i]), #[trigger] living@[i]) by {
            assert(same_actor(l0[i], l1[i]));
            lemma_death_statuses_congruent(l0, d0, l1, d1, ActorSlot::Living(i as usize), l0[i], l1[i]);
            lemma_gains_then(l0[i], flat_map(ch, end_status_fn(l0, d0, ActorSlot::Living(i as usize), l0[i])), l1[i],
                flat_map(indices(d0.len()), death_status_fn(l0, d0, ActorSlot::Living(i as usize), l0[i])), living@[i]);
        }
        assert forall|k: int| 0 <= k < d0.len() implies actor_gains(d0[k],
            cleanup_statuses(l0, d0, ch, ActorSlot::Dying(k as usize), d0[k]), #[trigger] dying@[k]) by {
            assert(same_actor(d0[k], d1[k]));
            lemma_death_statuses_congruent(l0, d0, l1, d1, ActorSlot::Dying(k as usize), d0[k], d1[k]);
            lemma_gains_then(d0[k], flat_map(ch, end_status_fn(l0, d0, ActorSlot::Dying(k as usize), d0[k])), d1[k],
                flat_map(indices(d0.len()), death_status_fn(l0, d0, ActorSlot::Dying(k as usize), d0[k])), dying@[k]);
        }
    }
    (living, dying, world, gone)
}

/// The entities a frame's clean-up despawns, in order: the ended abilities,
/// the dying actors and the other dead entities.
pub open spec fn despawned(children: Seq<(Entity, ActorChild)>, dying: Seq<ActorReference>, dead_things: Seq<Entity>) -> Seq<Entity> {
    children.map_values(|c: (Entity, ActorChild)| c.0) + actor_entities(dying) + dead_things
}

fn despawn_list(children: &Vec<(Entity, ActorChild)>, dying: &Vec<Entity>, dead_things: &Vec<Entity>) -> (r: Vec<Entity>)
    ensures
        r@ == children@.map_values(|c: (Entity, ActorChild)| c.0) + dying@ + dead_things@,
{
    let mut r: Vec<Entity> = Vec::new();
    let mut i: usize = 0;
    while i < children.len()
        invariant
            i <= children@.len(),
            r@ == children@.take(i as int).map_values(|c: (Entity, ActorChild)| c.0),
        decreases children@.len() - i,
    {
        r.push(children[i].0);
        assert(children@.take(i + 1).map_values(|c: (Entity, ActorChild)| c.0)
            =~= children@.take(i as int).map_values(|c: (Entity, ActorChild)| c.0).push(children@[i as int].0));
        i = i + 1;
    }
    assert(children@.take(children@.len() as int) =~= children@);
    let ghost head = r@;
    let mut j: usize = 0;
    while j < dying.len()
        invariant
            j <= dying@.len(),
            r@ == head + dying@.take(j as int),
        decreases dying@.len() - j,
    {
        r.push(dying[j]);
        assert(dying@.take(j + 1) =~= dying@.take(j as int).push(dying@[j as int]));
        assert(head + dying@.take(j + 1) =~= (head + dying@.take(j as int)).push(dying@[j as int]));
        j = j + 1;
    }
    assert(dying@.take(dying@.len() as int) =~= dying@);
    let ghost mid = r@;
    let mut k: usize = 0;
    while k < dead_things.len()
        invariant
            k <= dead_things@.len(),
            r@ == mid + dead_things@.take(k as int),
        decreases dead_things@.len() - k,
    {
        r.push(dead_things[k]);
        assert(dead_things@.take(k + 1) =~= dead_things@.take(k as int).push(dead_things@[k as int]));
        assert(mid + dead_things@.take(k + 1) =~= (mid + dead_things@.take(k as int)).push(dead_things@[k as int]));
        k = k + 1;
    }
    assert(dead_things@.take(dead_things@.len() as int) =~= dead_things@);
    r
}

/// Lets the abilities of `dead_children`, in order, end.
fn end_abilities(
    living: &mut Vec<ActorReference>,
    dying: &mut Vec<ActorReference>,
    living_entities: &Vec<Entity>,
    dying_entities: &Vec<Entity>,
    dead_children: &Vec<(Entity, ActorChild)>,
    world_access: EffectContextWorldAccess,
) -> (w: EffectContextWorldAccess)
    requires
        living_entities@ == actor_entities(old(living)@),
        dying_entities@ == actor_entities(old(dying)@),
    ensures
        final(living)@.len() == old(living)@.len(),
        final(dying)@.len() == old(dying)@.len(),
        forall|i: int| 0 <= i < old(living)@.len() ==> actor_gains(old(living)@[i],
            flat_map(dead_children@, end_status_fn(old(living)@, old(dying)@, ActorSlot::Living(i as usize), old(living)@[i])),
            #[trigger] final(living)@[i]),
        forall|k: int| 0 <= k < old(dying)@.len() ==> actor_gains(old(dying)@[k],
            flat_map(dead_children@, end_status_fn(old(living)@, old(dying)@, ActorSlot::Dying(k as usize), old(dying)@[k])),
            #[trigger] final(dying)@[k]),
        world_gains(world_access, flat_map(dead_children@, end_damage_fn(old(living)@, old(dying)@)),
            flat_map(dead_children@, end_spawn_fn(old(living)@, old(dying)@)), w),
{
    let ghost l0 = living@;
    let ghost d0 = dying@;
    let ghost ch = dead_children@;
    let ghost w0 = world_access;
    assert(l0.len() == living.len() && d0.len() == dying.len());
    let mut world = world_access;
    proof {
        assert(ch.take(0) =~= Seq::<(Entity, ActorChild)>::empty());
        assert forall|i: int| 0 <= i < l0.len() implies actor_gains(l0[i],
            flat_map(ch.take(0), end_status_fn(l0, d0, ActorSlot::Living(i as usize), l0[i])), #[trigger] living@[i]) by {
            assert(l0[i].context.status_effects@ + Seq::<StatusEffect>::empty() =~= l0[i].context.status_effects@);
        }
        assert forall|k: int| 0 <= k < d0.len() implies actor_gains(d0[k],
            flat_map(ch.take(0), end_status_fn(l0, d0, ActorSlot::Dying(k as usize), d0[k])), #[trigger] dying@[k]) by {
            assert(d0[k].context.status_effects@ + Seq::<StatusEffect>::empty() =~= d0[k].context.status_effects@);
        }
        assert(w0.damage_instances@ + Seq::<DamageEvent>::empty() =~= w0.damage_instances@);
        assert(w0.spawn_requests@ + Seq::<SpawnRequest>::empty() =~= w0.spawn_requests@);
    }
    let mut c: usize = 0;
    while c < dead_children.len()
        invariant
            c <= ch.len(),
            ch == dead_children@,
            l0.len() <= usize::MAX,
            d0.len() <= usize::MAX,
            l0.len() == living_entities@.len(),
            d0.len() == dying_entities@.len(),
            living_entities@ == actor_entities(l0),
            dying_entities@ == actor_entities(d0),
            living@.len() == l0.len(),
            dying@.len() == d0.len(),
            forall|i: int| 0 <= i < l0.len() ==> actor_gains(l0[i],
                flat_map(ch.take(c as int), end_status_fn(l0, d0, ActorSlot::Living(i as usize), l0[i])), #[trigger] living@[i]),
            forall|k: int| 0 <= k < d0.len() ==> actor_gains(d0[k],
                flat_map(ch.take(c as int), end_status_fn(l0, d0, ActorSlot::Dying(k as usize), d0[k])), #[trigger] dying@[k]),
            world_gains(w0, flat_map(ch.take(c as int), end_damage_fn(l0, d0)), flat_map(ch.take(c as int), end_spawn_fn(l0, d0)), world),
        decreases ch.len() - c,
    {
        let child = dead_children[c];
        let slot = find_end_slot(&living_entities, &dying_entities, child);
        let ghost lb = living@;
        let ghost db = dying@;
        let ghost wb = world;
        match slot {
            Some(ActorSlot::Living(i)) => {
                world = end_ability_at(living, i, child.1.ability_type, world);
            },
            Some(ActorSlot::Dying(k)) => {
                world = end_ability_at(dying, k, child.1.ability_type, world);
            },
            None => {},
        }
        proof {
            lemma_flat_map_take(ch, end_damage_fn(l0, d0), c as int);
            lemma_flat_map_take(ch, end_spawn_fn(l0, d0), c as int);
            match slot {
                Some(s) => {
                    let a = slot_actor(lb, db, s);
                    let effects = ability_end_effects(a.context.effects@, child.1.ability_type);
                    lemma_world_gains_then(w0, flat_map(ch.take(c as int), end_damage_fn(l0, d0)), flat_map(ch.take(c as int), end_spawn_fn(l0, d0)),
                        wb, all_damages(effects, a.entity), all_spawns(effects, a.entity, a.location.0), world);
                },
                None => {
                    assert(flat_map(ch.take(c as int), end_damage_fn(l0, d0)) + Seq::<DamageEvent>::empty() =~= flat_map(ch.take(c as int), end_damage_fn(l0, d0)));
                    assert(flat_map(ch.take(c as int), end_spawn_fn(l0, d0)) + Seq::<SpawnRequest>::empty() =~= flat_map(ch.take(c as int), end_spawn_fn(l0, d0)));
                },
            }
            assert forall|i: int| 0 <= i < l0.len() implies actor_gains(l0[i],
                flat_map(ch.take(c + 1), end_status_fn(l0, d0, ActorSlot::Living(i as usize), l0[i])), #[trigger] living@[i]) by {
                let f = end_status_fn(l0, d0, ActorSlot::Living(i as usize), l0[i]);
                lemma_flat_map_take(ch, f, c as int);
                if slot == Some(ActorSlot::Living(i as usize)) {
                    lemma_gains_then(l0[i], flat_map(ch.take(c as int), f), lb[i],
                        all_statuses(ability_end_effects(lb[i].context.effects@, child.1.ability_type)), living@[i]);
                } else {
                    lemma_gains_nothing_more(l0[i], flat_map(ch.take(c as int), f), living@[i]);
                }
            }
            assert forall|k: int| 0 <= k < d0.len() implies actor_gains(d0[k],
                flat_map(ch.take(c + 1), end_status_fn(l0, d0, ActorSlot::Dying(k as usize), d0[k])), #[trigger] dying@[k]) by {
                let f = end_status_fn(l0, d0, ActorSlot::Dying(k as usize), d0[k]);
                lemma_flat_map_take(ch, f, c as int);
                if slot == Some(ActorSlot::Dying(k as usize)) {
                    lemma_gains_then(d0[k], flat_map(ch.take(c as int), f), db[k],
                        all_statuses(ability_end_effects(db[k].context.effects@, child.1.ability_type)), dying@[k]);
                } else {
                    lemma_gains_nothing_more(d0[k], flat_map(ch.take(c as int), f), dying@[k]);
                }
            }
        }
        c = c + 1;
    }
    proof {
        lemma_flat_map_all(ch, end_damage_fn(l0, d0));
        lemma_flat_map_all(ch, end_spawn_fn(l0, d0));
        assert forall|i: int| 0 <= i < l0.len() implies actor_gains(l0[i],
            flat_map(ch, end_status_fn(l0, d0, ActorSlot::Living(i as usize), l0[i])), #[trigger] living@[i]) by {
            lemma_flat_map_all(ch, end_status_fn(l0, d0, ActorSlot::Living(i as usize), l0[i]));
        }
        assert forall|k: int| 0 <= k < d0.len() implies actor_gains(d0[k],
            flat_map(ch, end_status_fn(l0, d0, ActorSlot::Dying(k as usize), d0[k])), #[trigger] dying@[k]) by {
            lemma_flat_map_all(ch, end_status_fn(l0, d0, ActorSlot::Dying(k as usize), d0[k]));
        }
    }
    world
}


/// Plays out the deaths of the dying actors, in order.
fn die_all(
    living: &mut Vec<ActorReference>,
    dying: &mut Vec<ActorReference>,
    living_entities: &Vec<Entity>,
    dying_entities: &Vec<Entity>,
    world_access: EffectContextWorldAccess,
) -> (w: EffectContextWorldAccess)
    requires
        living_entities@ == actor_entities(old(living)@),
        dying_entities@ == actor_entities(old(dying)@),
    ensures
        final(living)@.len() == old(living)@.len(),
        final(dying)@.len() == old(dying)@.len(),
        forall|i: int| 0 <= i < old(living)@.len() ==> actor_gains(old(living)@[i],
            flat_map(indices(old(dying)@.len()), death_status_fn(old(living)@, old(dying)@, ActorSlot::Living(i as usize), old(living)@[i])),
            #[trigger] final(living)@[i]),
        forall|k: int| 0 <= k < old(dying)@.len() ==> actor_gains(old(dying)@[k],
            flat_map(indices(old(dying)@.len()), death_status_fn(old(living)@, old(dying)@, ActorSlot::Dying(k as usize), old(dying)@[k])),
            #[trigger] final(dying)@[k]),
        world_gains(world_access, flat_map(indices(old(dying)@.len()), death_damage_fn(old(living)@, old(dying)@)),
            flat_map(indices(old(dying)@.len()), death_spawn_fn(old(living)@, old(dying)@)), w),
{
    let ghost l0 = living@;
    let ghost d0 = dying@;
    let ghost w0 = world_access;
    let ghost ix = indices(d0.len());
    assert(l0.len() == living.len() && d0.len() == dying.len());
    let mut world = world_access;
    proof {
        assert(ix.take(0) =~= Seq::<int>::empty());
        assert forall|i: int| 0 <= i < l0.len() implies actor_gains(l0[i],
            flat_map(ix.take(0), death_status_fn(l0, d0, ActorSlot::Living(i as usize), l0[i])), #[trigger] living@[i]) by {
            assert(l0[i].context.status_effects@ + Seq::<StatusEffect>::empty() =~= l0[i].context.status_effects@);
        }
        assert forall|k: int| 0 <= k < d0.len() implies actor_gains(d0[k],
            flat_map(ix.take(0), death_status_fn(l0, d0, ActorSlot::Dying(k as usize), d0[k])), #[trigger] dying@[k]) by {
            assert(d0[k].context.status_effects@ + Seq::<StatusEffect>::empty() =~= d0[k].context.status_effects@);
        }
        assert(w0.damage_instances@ + Seq::<DamageEvent>::empty() =~= w0.damage_instances@);
        assert(w0.spawn_requests@ + Seq::<SpawnRequest>::empty() =~= w0.spawn_requests@);
    }
    let mut v: usize = 0;
    while v < dying.len()
        invariant
            v <= d0.len(),
            ix == indices(d0.len()),
            l0.len() <= usize::MAX,
            d0.len() <= usize::MAX,
            living_entities@ == actor_entities(l0),
            dying_entities@ == actor_entities(d0),
            living@.len() == l0.len(),
            dying@.len() == d0.len(),
            forall|i: int| 0 <= i < l0.len() ==> actor_gains(l0[i],
                flat_map(ix.take(v as int), death_status_fn(l0, d0, ActorSlot::Living(i as usize), l0[i])), #[trigger] living@[i]),
            forall|k: int| 0 <= k < d0.len() ==> actor_gains(d0[k],
                flat_map(ix.take(v as int), death_status_fn(l0, d0, ActorSlot::Dying(k as usize), d0[k])), #[trigger] dying@[k]),
            world_gains(w0, flat_map(ix.take(v as int), death_damage_fn(l0, d0)), flat_map(ix.take(v as int), death_spawn_fn(l0, d0)), world),
        decreases d0.len() - v,
    {
        let kl = find_killer(dying[v].context.last_damage_source, v, living_entities, dying_entities);
        let ghost lb = living@;
        let ghost db = dying@;
        let ghost wb = world;
        assert(kl == death_killer(l0, d0, v as int));
        world = die_at(living, dying, v, kl, world);
        proof {
            assert(ix[v as int] == v as int);
            lemma_flat_map_take(ix, death_damage_fn(l0, d0), v as int);
            lemma_flat_map_take(ix, death_spawn_fn(l0, d0), v as int);
            assert(death_damages(kl, lb, db, v as int) == death_damages(kl, l0, d0, v as int));
            assert(death_spawns(kl, lb, db, v as int) == death_spawns(kl, l0, d0, v as int));
            lemma_world_gains_then(w0, flat_map(ix.take(v as int), death_damage_fn(l0, d0)), flat_map(ix.take(v as int), death_spawn_fn(l0, d0)),
                wb, death_damages(kl, l0, d0, v as int), death_spawns(kl, l0, d0, v as int), world);
            assert forall|i: int| 0 <= i < l0.len() implies actor_gains(l0[i],
                flat_map(ix.take(v + 1), death_status_fn(l0, d0, ActorSlot::Living(i as usize), l0[i])), #[trigger] living@[i]) by {
                let f = death_status_fn(l0, d0, ActorSlot::Living(i as usize), l0[i]);
                lemma_flat_map_take(ix, f, v as int);
                assert(death_statuses(kl, v as int, ActorSlot::Living(i as usize), lb[i]) == f(v as int));
                lemma_gains_then(l0[i], flat_map(ix.take(v as int), f), lb[i], f(v as int), living@[i]);
            }
            assert forall|k: int| 0 <= k < d0.len() implies actor_gains(d0[k],
                flat_map(ix.take(v + 1), death_status_fn(l0, d0, ActorSlot::Dying(k as usize), d0[k])), #[trigger] dying@[k]) by {
                let f = death_status_fn(l0, d0, ActorSlot::Dying(k as usize), d0[k]);
                lemma_flat_map_take(ix, f, v as int);
                assert(death_statuses(kl, v as int, ActorSlot::Dying(k as usize), db[k]) == f(v as int));
                lemma_gains_then(d0[k], flat_map(ix.take(v as int), f), db[k], f(v as int), dying@[k]);
            }
        }
        v = v + 1;
    }
    proof {
        lemma_flat_map_all(ix, death_damage_fn(l0, d0));
        lemma_flat_map_all(ix, death_spawn_fn(l0, d0));
        assert forall|i: int| 0 <= i < l0.len() implies actor_gains(l0[i],
            flat_map(ix, death_status_fn(l0, d0, ActorSlot::Living(i as usize), l0[i])), #[trigger] living@[i]) by {
            lemma_flat_map_all(ix, death_status_fn(l0, d0, ActorSlot::Living(i as usize), l0[i]));
        }
        assert forall|k: int| 0 <= k < d0.len() implies actor_gains(d0[k],
            flat_map(ix, death_status_fn(l0, d0, ActorSlot::Dying(k as usize), d0[k])), #[trigger] dying@[k]) by {
            lemma_flat_map_all(ix, death_status_fn(l0, d0, ActorSlot::Dying(k as usize), d0[k]));
        }
    }
    world
}


/// Two states of one actor agree on everything but its status effects and stats.
pub open spec fn same_actor(a: ActorReference, b: ActorReference) -> bool {
    &&& a.entity == b.entity
    &&& a.location == b.location
    &&& a.context.effects@ == b.context.effects@
    &&& a.context.last_damage_source == b.context.last_damage_source
}

/// Two lists of actors agree, index by index, on everything but status
/// effects and stats.
pub open spec fn same_actors(a: Seq<ActorReference>, b: Seq<ActorReference>) -> bool {
    &&& a.len() == b.len()
    &&& forall|i: int| 0 <= i < a.len() ==> same_actor(#[trigger] a[i], b[i])
}

proof fn lemma_flat_map_congruent<A, B>(s: Seq<A>, f: spec_fn(A) -> Seq<B>, g: spec_fn(A) -> Seq<B>)
    requires
        forall|i: int| 0 <= i < s.len() ==> f(#[trigger] s[i]) == g(s[i]),
    ensures
        flat_map(s, f) == flat_map(s, g),
    decreases s.len(),
{
    if s.len() > 0 {
        lemma_flat_map_congruent(s.drop_last(), f, g);
        assert(f(s[s.len() - 1]) == g(s[s.len() - 1]));
    }
}

proof fn lemma_entities_same(a: Seq<ActorReference>, b: Seq<ActorReference>)
    requires
        same_actors(a, b),
    ensures
        actor_entities(a) == actor_entities(b),
{
    assert(actor_entities(a) =~= actor_entities(b)) by {
        assert forall|i: int| 0 <= i < a.len() implies actor_entities(a)[i] == actor_entities(b)[i] by {
            assert(same_actor(a[i], b[i]));
        }
    }
}

/// Who kills whom depends only on what clean-up leaves unchanged.
proof fn lemma_killers_congruent(l0: Seq<ActorReference>, d0: Seq<ActorReference>, l1: Seq<ActorReference>, d1: Seq<ActorReference>)
    requires
        same_actors(l0, l1),
        same_actors(d0, d1),
    ensures
        forall|v: int| 0 <= v < d0.len() ==> #[trigger] death_killer(l1, d1, v) == death_killer(l0, d0, v),
{
    lemma_entities_same(l0, l1);
    lemma_entities_same(d0, d1);
    assert forall|v: int| 0 <= v < d0.len() implies #[trigger] death_killer(l1, d1, v) == death_killer(l0, d0, v) by {
        assert(same_actor(d0[v], d1[v]));
    }
}

/// The status effects the deaths give depend only on what clean-up leaves unchanged.
proof fn lemma_death_statuses_congruent(
    l0: Seq<ActorReference>, d0: Seq<ActorReference>, l1: Seq<ActorReference>, d1: Seq<ActorReference>,
    slot: ActorSlot, a0: ActorReference, a1: ActorReference,
)
    requires
        same_actors(l0, l1),
        same_actors(d0, d1),
        a0.context.effects@ == a1.context.effects@,
    ensures
        flat_map(indices(d1.len()), death_status_fn(l1, d1, slot, a1)) == flat_map(indices(d0.len()), death_status_fn(l0, d0, slot, a0)),
{
    let ix = indices(d0.len());
    lemma_killers_congruent(l0, d0, l1, d1);
    assert forall|i: int| 0 <= i < ix.len() implies death_status_fn(l1, d1, slot, a1)(#[trigger] ix[i])
        == death_status_fn(l0, d0, slot, a0)(ix[i]) by {
        assert(death_killer(l1, d1, i) == death_killer(l0, d0, i));
    }
    lemma_flat_map_congruent(ix, death_status_fn(l1, d1, slot, a1), death_status_fn(l0, d0, slot, a0));
}

proof fn lemma_first_witness(entities: Seq<Entity>, entity: Entity, i: int)
    requires
        0 <= i < entities.len(),
        entities[i] == entity,
    ensures
        exists|k: int| 0 <= k < entities.len() && entities[k] == entity && forall|j: int| 0 <= j < k ==> entities[j] != entity,
    decreases i,
{
    if exists|j: int| 0 <= j < i && entities[j] == entity {
        let j = choose|j: int| 0 <= j < i && entities[j] == entity;
        lemma_first_witness(entities, entity, j);
    }
}

proof fn lemma_first_index_in_range(entities: Seq<Entity>, entity: Entity)
    ensures
        first_index(entities, entity) matches Some(i) ==> 0 <= i < entities.len(),
{
    if exists|i: int| 0 <= i < entities.len() && entities[i] == entity {
        let i = choose|i: int| 0 <= i < entities.len() && entities[i] == entity;
        lemma_first_witness(entities, entity, i);
    }
}

proof fn lemma_killer_in_range(source: Option<DamageSource>, victim: int, living: Seq<Entity>, dying: Seq<Entity>)
    requires
        living.len() <= usize::MAX,
        dying.len() <= usize::MAX,
    ensures
        killer_in_range(killer_location(source, victim, living, dying), victim, living.len() as int, dying.len() as int),
{
    if let Some(DamageSource::Actor(killer)) = source {
        lemma_first_index_in_range(living, killer);
        lemma_first_index_in_range(dying, killer);
    }
}

/// What one death requests depends only on what clean-up leaves unchanged.
proof fn lemma_death_requests_same(
    kl: KillerLocation, l0: Seq<ActorReference>, d0: Seq<ActorReference>, l1: Seq<ActorReference>, d1: Seq<ActorReference>, v: int,
)
    requires
        same_actors(l0, l1),
        same_actors(d0, d1),
        0 <= v < d0.len(),
        killer_in_range(kl, v, l0.len() as int, d0.len() as int),
    ensures
        death_damages(kl, l1, d1, v) == death_damages(kl, l0, d0, v),
        death_spawns(kl, l1, d1, v) == death_spawns(kl, l0, d0, v),
{
    assert(same_actor(d0[v], d1[v]));
    match kl {
        KillerLocation::Living(j) => { assert(same_actor(l0[j as int], l1[j as int])); },
        KillerLocation::Dying(k) => { assert(same_actor(d0[k as int], d1[k as int])); },
        _ => {},
    }
}

/// The damage and objects the deaths request depend only on what clean-up
/// leaves unchanged.
proof fn lemma_death_requests_congruent(l0: Seq<ActorReference>, d0: Seq<ActorReference>, l1: Seq<ActorReference>, d1: Seq<ActorReference>)
    requires
        l0.len() <= usize::MAX,
        d0.len() <= usize::MAX,
        same_actors(l0, l1),
        same_actors(d0, d1),
    ensures
        flat_map(indices(d1.len()), death_damage_fn(l1, d1)) == flat_map(indices(d0.len()), death_damage_fn(l0, d0)),
        flat_map(indices(d1.len()), death_spawn_fn(l1, d1)) == flat_map(indices(d0.len()), death_spawn_fn(l0, d0)),
{
    let ix = indices(d0.len());
    lemma_killers_congruent(l0, d0, l1, d1);
    assert forall|i: int| 0 <= i < ix.len() implies death_damage_fn(l1, d1)(#[trigger] ix[i]) == death_damage_fn(l0, d0)(ix[i])
        && death_spawn_fn(l1, d1)(ix[i]) == death_spawn_fn(l0, d0)(ix[i]) by {
        let kl = death_killer(l0, d0, i);
        assert(death_killer(l1, d1, i) == kl);
        lemma_killer_in_range(d0[i].context.last_damage_source, i, actor_entities(l0), actor_entities(d0));
        lemma_death_requests_same(kl, l0, d0, l1, d1, i);
    }
    lemma_flat_map_congruent(ix, death_damage_fn(l1, d1), death_damage_fn(l0, d0));
    lemma_flat_map_congruent(ix, death_spawn_fn(l1, d1), death_spawn_fn(l0, d0));
}

} // verus!
