use vstd::prelude::*;

use crate::actor::{ActorChild, DamageEvent, Entity};
use crate::common::Vec2;
use crate::damage::Damage;
use crate::deaths::{
    actor_entities, entities_of, find, first_index, indices, lemma_first_index, lemma_gains_nothing_more, lemma_gains_then,
    lemma_world_gains_then,
};
use crate::effect::ChildType;
use crate::effect_application::{
    ability_hit_effects, actor_gains, all_hit_damages, all_hit_spawns, all_hit_statuses, apply_on_ability_hit_effects, flat_map,
    lemma_flat_map_all, lemma_flat_map_append, lemma_flat_map_take, world_gains, ActorOnHitEffectContext, ActorReference,
    EffectContextWorldAccess, SpawnRequest,
};
use crate::float::{spec_zero, zero, Float};
use crate::stats::StatusEffect;

verus! {

/// How long an actor that damage can hit stays out of reach after a hit.
#[derive(Clone, Copy, Debug)]
pub struct Damageable {
    pub invulnerability_remaining: Float,
    pub invulnerability_duration: Float,
}

/// A damaging child of an actor (a bullet, an explosion, a swing) as it
/// stands when collisions are checked.
#[derive(Clone, Copy, Debug)]
pub struct Projectile {
    pub entity: Entity,
    pub damage: Damage,
    pub position: Vec2,
    pub child: ActorChild,
}

/// Damage can hit the actor now: its remaining invulnerability is not above zero.
pub open spec fn hittable(d: Damageable) -> bool {
    !spec_zero().spec_lt(d.invulnerability_remaining)
}

/// The target at a given index, if the projectile touches it and it can be hit.
pub open spec fn eligible_fn(touching: Seq<bool>, targets: Seq<Damageable>) -> spec_fn(int) -> Seq<int> {
    |t: int| if touching[t] && hittable(targets[t]) { seq![t] } else { Seq::empty() }
}

/// The targets, in order, that a projectile with `damage` hits, given which
/// targets it touches: none if it has done its one hit already; else every
/// target it touches that can be hit, or only the first of them if it deals
/// its damage once.
pub open spec fn projectile_hits(damage: Damage, touching: Seq<bool>, targets: Seq<Damageable>) -> Seq<int> {
    if damage.deal_damage_once && damage.did_damage {
        Seq::empty()
    } else {
        let all = flat_map(indices(targets.len()), eligible_fn(touching, targets));
        if damage.deal_damage_once && all.len() > 0 { all.take(1) } else { all }
    }
}

/// The targets after `hits`: each hit target becomes invulnerable for its
/// full duration.
pub open spec fn after_hits(targets: Seq<Damageable>, hits: Seq<int>) -> Seq<Damageable> {
    Seq::new(targets.len(), |t: int|
        if hits.contains(t) {
            Damageable { invulnerability_remaining: targets[t].invulnerability_duration, ..targets[t] }
        } else {
            targets[t]
        })
}

/// The integers that `s` holds.
pub open spec fn as_ints(s: Seq<usize>) -> Seq<int> {
    s.map_values(|x: usize| x as int)
}

/// Lets one projectile hit the targets it touches.
fn hits_of_projectile(damage: Damage, touching: &Vec<bool>, targets: &mut Vec<Damageable>) -> (hits: Vec<usize>)
    requires
        touching@.len() == old(targets)@.len(),
    ensures
        as_ints(hits@) == projectile_hits(damage, touching@, old(targets)@),
        final(targets)@ == after_hits(old(targets)@, as_ints(hits@)),
        forall|j: int| 0 <= j < hits@.len() ==> hits@[j] < old(targets)@.len(),
{
    let ghost ts = targets@;
    let ghost f = eligible_fn(touching@, ts);
    let ghost ix = indices(ts.len());
    let mut hits: Vec<usize> = Vec::new();
    if damage.deal_damage_once && damage.did_damage {
        assert(targets@ =~= after_hits(ts, as_ints(hits@)));
        assert(as_ints(hits@) =~= Seq::<int>::empty());
        return hits;
    }
    assert(ix.take(0) =~= Seq::<int>::empty());
    proof { lemma_flat_map_all(ix, f); }
    assert(targets@ =~= after_hits(ts, as_ints(hits@)));
    assert(as_ints(hits@) =~= flat_map(ix.take(0), f));
    let mut t: usize = 0;
    while t < targets.len()
        invariant_except_break
            t <= ts.len(),
            targets@.len() == ts.len(),
            ix == indices(ts.len()),
            f == eligible_fn(touching@, ts),
            flat_map(ix.take(ts.len() as int), f) == flat_map(ix, f),
            touching@.len() == ts.len(),
            !(damage.deal_damage_once && damage.did_damage),
            as_ints(hits@) == flat_map(ix.take(t as int), f),
            forall|j: int| 0 <= j < hits@.len() ==> hits@[j] < t,
            targets@ == after_hits(ts, as_ints(hits@)),
            damage.deal_damage_once ==> hits@.len() == 0,
        ensures
            as_ints(hits@) == projectile_hits(damage, touching@, ts),
            targets@ == after_hits(ts, as_ints(hits@)),
            forall|j: int| 0 <= j < hits@.len() ==> hits@[j] < ts.len(),
        decreases ts.len() - t,
    {
        proof {
            lemma_flat_map_take(ix, f, t as int);
            assert(ix[t as int] == t as int);
            assert(!as_ints(hits@).contains(t as int)) by {
                if as_ints(hits@).contains(t as int) {
                    let j = choose|j: int| 0 <= j < as_ints(hits@).len() && as_ints(hits@)[j] == t as int;
                    assert(hits@[j] < t);
                }
            }
            assert(targets@[t as int] == ts[t as int]);
        }
        let zero_time = zero();
        if touching[t] && !zero_time.less_than(&targets[t].invulnerability_remaining) {
            let ghost before = hits@;
            let duration = targets[t].invulnerability_duration;
            targets[t] = Damageable { invulnerability_remaining: duration, invulnerability_duration: duration };
            hits.push(t);
            proof {
                let h = as_ints(hits@);
                assert(h =~= as_ints(before) + seq![t as int]);
                assert forall|u: int| #[trigger] h.contains(u) == (as_ints(before).contains(u) || u == t) by {
                    if as_ints(before).contains(u) {
                        let j = choose|j: int| 0 <= j < as_ints(before).len() && as_ints(before)[j] == u;
                        assert(h[j] == u);
                    }
                    if u == t {
                        assert(h[h.len() - 1] == u);
                    }
                    if h.contains(u) {
                        let j = choose|j: int| 0 <= j < h.len() && h[j] == u;
                        if j < as_ints(before).len() {
                            assert(as_ints(before)[j] == u);
                        }
                    }
                }
                assert(targets@ =~= after_hits(ts, h));
            }
            if damage.deal_damage_once {
                proof {
                    let all = flat_map(ix, f);
                    assert(ix =~= ix.take(t + 1) + ix.skip(t + 1));
                    lemma_flat_map_append(ix.take(t + 1), ix.skip(t + 1), f);
                    assert(as_ints(hits@) =~= seq![t as int]);
                    assert(all.take(1) =~= as_ints(hits@));
                }
                break;
            }
        } else {
            proof {
                assert(as_ints(hits@) =~= flat_map(ix.take(t as int), f) + Seq::<int>::empty());
            }
        }
        t = t + 1;
    }
    hits
}


/// The rows of a touching matrix.
pub open spec fn touching_rows(touching: Seq<Vec<bool>>) -> Seq<Seq<bool>> {
    touching.map_values(|row: Vec<bool>| row@)
}

/// The integer pairs that `s` holds.
pub open spec fn pairs_as_ints(s: Seq<(usize, usize)>) -> Seq<(int, int)> {
    s.map_values(|h: (usize, usize)| (h.0 as int, h.1 as int))
}

/// The targets, and the hits as (projectile, target) index pairs in order,
/// after the first `n` projectiles have been checked in order; `touching`
/// tells, for each projectile and target, whether they intersect.
pub open spec fn collisions(projectiles: Seq<Projectile>, touching: Seq<Seq<bool>>, targets: Seq<Damageable>, n: nat)
    -> (Seq<Damageable>, Seq<(int, int)>)
    decreases n,
{
    if n == 0 {
        (targets, Seq::empty())
    } else {
        let (ts, hs) = collisions(projectiles, touching, targets, (n - 1) as nat);
        let ph = projectile_hits(projectiles[n - 1].damage, touching[n - 1], ts);
        (after_hits(ts, ph), hs + ph.map_values(|t: int| ((n - 1) as int, t)))
    }
}

/// A projectile after the collisions check: it has done damage if it had
/// before or if it hit something now.
pub open spec fn after_projectile(p: Projectile, hits: Seq<int>) -> Projectile {
    Projectile { damage: Damage { did_damage: p.damage.did_damage || hits.len() > 0, ..p.damage }, ..p }
}

/// The projectile at a given index, if the collisions check destroys it: it
/// hits something now and is destroyed when it does damage.
pub open spec fn destroyed_fn(projectiles: Seq<Projectile>, touching: Seq<Seq<bool>>, targets: Seq<Damageable>) -> spec_fn(int) -> Seq<Entity> {
    |p: int|
        if projectiles[p].damage.destroy_on_damage
            && projectile_hits(projectiles[p].damage, touching[p], collisions(projectiles, touching, targets, p as nat).0).len() > 0 {
            seq![projectiles[p].entity]
        } else {
            Seq::empty()
        }
}

/// The projectiles the collisions check destroys, in order.
pub open spec fn destroyed_projectiles(projectiles: Seq<Projectile>, touching: Seq<Seq<bool>>, targets: Seq<Damageable>) -> Seq<Entity> {
    flat_map(indices(projectiles.len()), destroyed_fn(projectiles, touching, targets))
}

/// Checks each projectile, in order, against the targets, in order (see
/// `projectile_hits`): each hit makes its target invulnerable for its full
/// duration and marks the projectile as having done damage; a projectile
/// that hits and is destroyed on damage is destroyed. Returns the hits as
/// (projectile, target) index pairs, in order, and the destroyed
/// projectiles, in order.
pub fn find_collisions(projectiles: &mut Vec<Projectile>, targets: &mut Vec<Damageable>, touching: &Vec<Vec<bool>>)
    -> (r: (Vec<(usize, usize)>, Vec<Entity>))
    requires
        touching@.len() == old(projectiles)@.len(),
        forall|p: int| 0 <= p < touching@.len() ==> #[trigger] touching@[p]@.len() == old(targets)@.len(),
    ensures
        final(targets)@ == collisions(old(projectiles)@, touching_rows(touching@), old(targets)@, old(projectiles)@.len()).0,
        pairs_as_ints(r.0@) == collisions(old(projectiles)@, touching_rows(touching@), old(targets)@, old(projectiles)@.len()).1,
        r.1@ == destroyed_projectiles(old(projectiles)@, touching_rows(touching@), old(targets)@),
        final(projectiles)@.len() == old(projectiles)@.len(),
        forall|p: int| 0 <= p < old(projectiles)@.len() ==> #[trigger] final(projectiles)@[p] == after_projectile(old(projectiles)@[p],
            projectile_hits(old(projectiles)@[p].damage, touching@[p]@,
                collisions(old(projectiles)@, touching_rows(touching@), old(targets)@, p as nat).0)),
        forall|j: int| 0 <= j < r.0@.len() ==> #[trigger] r.0@[j].0 < old(projectiles)@.len() && r.0@[j].1 < old(targets)@.len(),
{
    let ghost ps = projectiles@;
    let ghost rows = touching_rows(touching@);
    let ghost t0 = targets@;
    let ghost ix = indices(ps.len());
    let ghost df = destroyed_fn(ps, rows, t0);
    let mut hits: Vec<(usize, usize)> = Vec::new();
    let mut destroyed: Vec<Entity> = Vec::new();
    assert(pairs_as_ints(hits@) =~= Seq::<(int, int)>::empty());
    assert(ix.take(0) =~= Seq::<int>::empty());
    let mut p: usize = 0;
    while p < projectiles.len()
        invariant
            p <= ps.len(),
            ix == indices(ps.len()),
            df == destroyed_fn(ps, rows, t0),
            destroyed@ == flat_map(ix.take(p as int), df),
            projectiles@.len() == ps.len(),
            touching@.len() == ps.len(),
            rows == touching_rows(touching@),
            forall|q: int| 0 <= q < touching@.len() ==> #[trigger] touching@[q]@.len() == t0.len(),
            targets@ == collisions(ps, rows, t0, p as nat).0,
            pairs_as_ints(hits@) == collisions(ps, rows, t0, p as nat).1,
            forall|q: int| 0 <= q < p ==> #[trigger] projectiles@[q] == after_projectile(ps[q],
                projectile_hits(ps[q].damage, touching@[q]@, collisions(ps, rows, t0, q as nat).0)),
            forall|q: int| p <= q < ps.len() ==> #[trigger] projectiles@[q] == ps[q],
            forall|j: int| 0 <= j < hits@.len() ==> #[trigger] hits@[j].0 < p && hits@[j].1 < t0.len(),
        decreases ps.len() - p,
    {
        let proj = projectiles[p];
        let ghost ts = targets@;
        let ghost before = hits@;
        assert(rows[p as int] == touching@[p as int]@);
        assert(targets@.len() == t0.len()) by {
            lemma_collisions_len(ps, rows, t0, p as nat);
        }
        let found = hits_of_projectile(proj.damage, &touching[p], targets);
        let mut k: usize = 0;
        while k < found.len()
            invariant
                k <= found@.len(),
                p < ps.len(),
                forall|j: int| 0 <= j < found@.len() ==> found@[j] < t0.len(),
                forall|j: int| 0 <= j < before.len() ==> #[trigger] before[j].0 < p && before[j].1 < t0.len(),
                hits@ == before + found@.take(k as int).map_values(|t: usize| (p, t)),
            decreases found@.len() - k,
        {
            hits.push((p, found[k]));
            assert(found@.take(k + 1).map_values(|t: usize| (p, t)) =~= found@.take(k as int).map_values(|t: usize| (p, t)).push((p, found@[k as int])));
            k = k + 1;
        }
        let did = proj.damage.did_damage || found.len() > 0;
        projectiles[p] = Projectile { damage: Damage { did_damage: did, ..proj.damage }, ..proj };
        proof {
            lemma_flat_map_take(ix, df, p as int);
            assert(ix[p as int] == p as int);
            assert(as_ints(found@).len() == found@.len());
        }
        let ghost before_destroyed = destroyed@;
        if proj.damage.destroy_on_damage && found.len() > 0 {
            destroyed.push(proj.entity);
            assert(destroyed@ =~= before_destroyed + df(p as int));
        } else {
            assert(destroyed@ =~= before_destroyed + df(p as int));
        }
        proof {
            assert(found@.take(found@.len() as int) =~= found@);
            assert(pairs_as_ints(hits@) =~= pairs_as_ints(before) + as_ints(found@).map_values(|t: int| (p as int, t)));
            assert(as_ints(found@).len() == found@.len());
        }
        p = p + 1;
    }
    proof { lemma_flat_map_all(ix, df); }
    (hits, destroyed)
}

proof fn lemma_collisions_len(projectiles: Seq<Projectile>, touching: Seq<Seq<bool>>, targets: Seq<Damageable>, n: nat)
    ensures
        collisions(projectiles, touching, targets, n).0.len() == targets.len(),
    decreases n,
{
    if n > 0 {
        lemma_collisions_len(projectiles, touching, targets, (n - 1) as nat);
    }
}


/// Where the actor that owns a hitting ability stands: among the actors
/// damage can hit, or among the others, at an index.
#[derive(Clone, Copy, Debug, PartialEq, Eq, Structural)]
pub enum HitActor {
    Damageable(usize),
    Other(usize),
}

/// The actor whose on-hit effects fire for a hit of an ability of `parent`:
/// the first with that entity among the actors damage can hit, else among
/// the others.
pub open spec fn hit_actor(damageable: Seq<Entity>, others: Seq<Entity>, parent: Entity) -> Option<HitActor> {
    match first_index(damageable, parent) {
        Some(i) => Some(HitActor::Damageable(i as usize)),
        None => match first_index(others, parent) {
            Some(k) => Some(HitActor::Other(k as usize)),
            None => None,
        },
    }
}

/// The actor at `slot`.
pub open spec fn hit_slot_actor(damageable: Seq<ActorReference>, others: Seq<ActorReference>, slot: HitActor) -> ActorReference {
    match slot {
        HitActor::Damageable(i) => damageable[i as int],
        HitActor::Other(k) => others[k as int],
    }
}

/// The status effects the actor `a` at `slot` gains from an ability hit
/// (its owner, the kind of ability and where it hit): those of its on-hit
/// effects for that kind of ability if it owns the ability, else none.
pub open spec fn hit_status_fn(damageable: Seq<ActorReference>, others: Seq<ActorReference>, slot: HitActor, a: ActorReference)
    -> spec_fn((Entity, ChildType, Vec2)) -> Seq<StatusEffect> {
    |h: (Entity, ChildType, Vec2)|
        if hit_actor(actor_entities(damageable), actor_entities(others), h.0) == Some(slot) {
            all_hit_statuses(ability_hit_effects(a.context.effects@, h.1))
        } else {
            Seq::empty()
        }
}

/// The damage an ability hit requests.
pub open spec fn hit_damage_fn(damageable: Seq<ActorReference>, others: Seq<ActorReference>)
    -> spec_fn((Entity, ChildType, Vec2)) -> Seq<DamageEvent> {
    |h: (Entity, ChildType, Vec2)|
        match hit_actor(actor_entities(damageable), actor_entities(others), h.0) {
            Some(slot) => {
                let a = hit_slot_actor(damageable, others, slot);
                all_hit_damages(ability_hit_effects(a.context.effects@, h.1), a.entity)
            },
            None => Seq::empty(),
        }
}

/// The objects an ability hit requests.
pub open spec fn hit_spawn_fn(damageable: Seq<ActorReference>, others: Seq<ActorReference>)
    -> spec_fn((Entity, ChildType, Vec2)) -> Seq<SpawnRequest> {
    |h: (Entity, ChildType, Vec2)|
        match hit_actor(actor_entities(damageable), actor_entities(others), h.0) {
            Some(slot) => {
                let a = hit_slot_actor(damageable, others, slot);
                all_hit_spawns(ability_hit_effects(a.context.effects@, h.1), a.entity, a.location.0, h.2)
            },
            None => Seq::empty(),
        }
}

fn find_hit_actor(damageable: &Vec<Entity>, others: &Vec<Entity>, parent: Entity) -> (r: Option<HitActor>)
    ensures
        r == hit_actor(damageable@, others@, parent),
        r matches Some(HitActor::Damageable(i)) ==> i < damageable@.len(),
        r matches Some(HitActor::Other(k)) ==> k < others@.len(),
{
    match find(damageable, parent) {
        Some(i) => {
            proof { lemma_first_index(damageable@, parent, i as int); }
            Some(HitActor::Damageable(i))
        },
        None => match find(others, parent) {
            Some(k) => {
                proof { lemma_first_index(others@, parent, k as int); }
                Some(HitActor::Other(k))
            },
            None => None,
        },
    }
}

/// Lets the actor at index `i` of `actors` apply its on-hit effects for a hit
/// of an ability of type `ability` at `hit_location`.
fn hit_at(actors: &mut Vec<ActorReference>, i: usize, ability: ChildType, hit_location: Vec2, world_access: EffectContextWorldAccess)
    -> (w: EffectContextWorldAccess)
    requires
        i < old(actors)@.len(),
    ensures
        final(actors)@.len() == old(actors)@.len(),
        forall|j: int| 0 <= j < old(actors)@.len() && j != i ==> final(actors)@[j] == old(actors)@[j],
        ({
            let a = old(actors)@[i as int];
            let hits = ability_hit_effects(a.context.effects@, ability);
            &&& actor_gains(a, all_hit_statuses(hits), final(actors)@[i as int])
            &&& world_gains(world_access, all_hit_damages(hits, a.entity), all_hit_spawns(hits, a.entity, a.location.0, hit_location), w)
        }),
{
    let actor = actors.remove(i);
    let mut context = ActorOnHitEffectContext { world_access, instigator: actor, victim: None, hit_location };
    apply_on_ability_hit_effects(ability, &mut context);
    actors.insert(i, context.instigator);
    context.world_access
}

/// Applies, for each ability hit in order (the ability's owner, its kind and
/// where it hit), the owner's on-hit effects for that kind of ability; the
/// owner is looked for among the actors damage can hit, then among the others.
pub fn apply_ability_hits(
    damageable: &mut Vec<ActorReference>,
    others: &mut Vec<ActorReference>,
    ability_hits: &Vec<(Entity, ChildType, Vec2)>,
    world_access: EffectContextWorldAccess,
) -> (w: EffectContextWorldAccess)
    ensures
        final(damageable)@.len() == old(damageable)@.len(),
        final(others)@.len() == old(others)@.len(),
        forall|i: int| 0 <= i < old(damageable)@.len() ==> actor_gains(old(damageable)@[i],
            flat_map(ability_hits@, hit_status_fn(old(damageable)@, old(others)@, HitActor::Damageable(i as usize), old(damageable)@[i])),
            #[trigger] final(damageable)@[i]),
        forall|k: int| 0 <= k < old(others)@.len() ==> actor_gains(old(others)@[k],
            flat_map(ability_hits@, hit_status_fn(old(damageable)@, old(others)@, HitActor::Other(k as usize), old(others)@[k])),
            #[trigger] final(others)@[k]),
        world_gains(world_access, flat_map(ability_hits@, hit_damage_fn(old(damageable)@, old(others)@)),
            flat_map(ability_hits@, hit_spawn_fn(old(damageable)@, old(others)@)), w),
{
    let ghost l0 = damageable@;
    let ghost d0 = others@;
    let ghost ch = ability_hits@;
    let ghost w0 = world_access;
    assert(l0.len() == damageable.len() && d0.len() == others.len());
    let damageable_entities = entities_of(damageable);
    let other_entities = entities_of(others);
    let mut world = world_access;
    proof {
        assert(ch.take(0) =~= Seq::<(Entity, ChildType, Vec2)>::empty());
        assert forall|i: int| 0 <= i < l0.len() implies actor_gains(l0[i],
            flat_map(ch.take(0), hit_status_fn(l0, d0, HitActor::Damageable(i as usize), l0[i])), #[trigger] damageable@[i]) by {
            assert(l0[i].context.status_effects@ + Seq::<StatusEffect>::empty() =~= l0[i].context.status_effects@);
        }
        assert forall|k: int| 0 <= k < d0.len() implies actor_gains(d0[k],
            flat_map(ch.take(0), hit_status_fn(l0, d0, HitActor::Other(k as usize), d0[k])), #[trigger] others@[k]) by {
            assert(d0[k].context.status_effects@ + Seq::<StatusEffect>::empty() =~= d0[k].context.status_effects@);
        }
        assert(w0.damage_instances@ + Seq::<DamageEvent>::empty() =~= w0.damage_instances@);
        assert(w0.spawn_requests@ + Seq::<SpawnRequest>::empty() =~= w0.spawn_requests@);
    }
    let mut c: usize = 0;
    while c < ability_hits.len()
        invariant
            c <= ch.len(),
            ch == ability_hits@,
            l0.len() <= usize::MAX,
            d0.len() <= usize::MAX,
            damageable_entities@ == actor_entities(l0),
            other_entities@ == actor_entities(d0),
            damageable@.len() == l0.len(),
            others@.len() == d0.len(),
            forall|i: int| 0 <= i < l0.len() ==> actor_gains(l0[i],
                flat_map(ch.take(c as int), hit_status_fn(l0, d0, HitActor::Damageable(i as usize), l0[i])), #[trigger] damageable@[i]),
            forall|k: int| 0 <= k < d0.len() ==> actor_gains(d0[k],
                flat_map(ch.take(c as int), hit_status_fn(l0, d0, HitActor::Other(k as usize), d0[k])), #[trigger] others@[k]),
            world_gains(w0, flat_map(ch.take(c as int), hit_damage_fn(l0, d0)), flat_map(ch.take(c as int), hit_spawn_fn(l0, d0)), world),
        decreases ch.len() - c,
    {
        let hit = ability_hits[c];
        let slot = find_hit_actor(&damageable_entities, &other_entities, hit.0);
        let ghost lb = damageable@;
        let ghost db = others@;
        let ghost wb = world;
        match slot {
            Some(HitActor::Damageable(i)) => {
                world = hit_at(damageable, i, hit.1, hit.2, world);
            },
            Some(HitActor::Other(k)) => {
                world = hit_at(others, k, hit.1, hit.2, world);
            },
            None => {},
        }
        proof {
            lemma_flat_map_take(ch, hit_damage_fn(l0, d0), c as int);
            lemma_flat_map_take(ch, hit_spawn_fn(l0, d0), c as int);
            match slot {
                Some(s) => {
                    let a = hit_slot_actor(lb, db, s);
                    let effects = ability_hit_effects(a.context.effects@, hit.1);
                    lemma_world_gains_then(w0, flat_map(ch.take(c as int), hit_damage_fn(l0, d0)), flat_map(ch.take(c as int), hit_spawn_fn(l0, d0)),
                        wb, all_hit_damages(effects, a.entity), all_hit_spawns(effects, a.entity, a.location.0, hit.2), world);
                },
                None => {
                    assert(flat_map(ch.take(c as int), hit_damage_fn(l0, d0)) + Seq::<DamageEvent>::empty() =~= flat_map(ch.take(c as int), hit_damage_fn(l0, d0)));
                    assert(flat_map(ch.take(c as int), hit_spawn_fn(l0, d0)) + Seq::<SpawnRequest>::empty() =~= flat_map(ch.take(c as int), hit_spawn_fn(l0, d0)));
                },
            }
            assert forall|i: int| 0 <= i < l0.len() implies actor_gains(l0[i],
                flat_map(ch.take(c + 1), hit_status_fn(l0, d0, HitActor::Damageable(i as usize), l0[i])), #[trigger] damageable@[i]) by {
                let f = hit_status_fn(l0, d0, HitActor::Damageable(i as usize), l0[i]);
                lemma_flat_map_take(ch, f, c as int);
                if slot == Some(HitActor::Damageable(i as usize)) {
                    lemma_gains_then(l0[i], flat_map(ch.take(c as int), f), lb[i],
                        all_hit_statuses(ability_hit_effects(lb[i].context.effects@, hit.1)), damageable@[i]);
                } else {
                    lemma_gains_nothing_more(l0[i], flat_map(ch.take(c as int), f), damageable@[i]);
                }
            }
            assert forall|k: int| 0 <= k < d0.len() implies actor_gains(d0[k],
                flat_map(ch.take(c + 1), hit_status_fn(l0, d0, HitActor::Other(k as usize), d0[k])), #[trigger] others@[k]) by {
                let f = hit_status_fn(l0, d0, HitActor::Other(k as usize), d0[k]);
                lemma_flat_map_take(ch, f, c as int);
                if slot == Some(HitActor::Other(k as usize)) {
                    lemma_gains_then(d0[k], flat_map(ch.take(c as int), f), db[k],
                        all_hit_statuses(ability_hit_effects(db[k].context.effects@, hit.1)), others@[k]);
                } else {
                    lemma_gains_nothing_more(d0[k], flat_map(ch.take(c as int), f), others@[k]);
                }
            }
        }
        c = c + 1;
    }
    proof {
        lemma_flat_map_all(ch, hit_damage_fn(l0, d0));
        lemma_flat_map_all(ch, hit_spawn_fn(l0, d0));
        assert forall|i: int| 0 <= i < l0.len() implies actor_gains(l0[i],
            flat_map(ch, hit_status_fn(l0, d0, HitActor::Damageable(i as usize), l0[i])), #[trigger] damageable@[i]) by {
            lemma_flat_map_all(ch, hit_status_fn(l0, d0, HitActor::Damageable(i as usize), l0[i]));
        }
        assert forall|k: int| 0 <= k < d0.len() implies actor_gains(d0[k],
            flat_map(ch, hit_status_fn(l0, d0, HitActor::Other(k as usize), d0[k])), #[trigger] others@[k]) by {
            lemma_flat_map_all(ch, hit_status_fn(l0, d0, HitActor::Other(k as usize), d0[k]));
        }
    }
    world
}


/// The damage a hit (projectile, target) does: the projectile's damage, on
/// behalf of the actor that owns it, to the target.
pub open spec fn hit_event(projectiles: Seq<Projectile>, targets: Seq<ActorReference>, h: (int, int)) -> DamageEvent {
    DamageEvent {
        instigator: projectiles[h.0].child.parent_actor,
        victim: targets[h.1].entity,
        damage: projectiles[h.0].damage.damage,
    }
}

/// The ability hit that a hit (projectile, target) makes: the owner of the
/// projectile, its kind of ability and where the projectile was.
pub open spec fn hit_record(projectiles: Seq<Projectile>, h: (int, int)) -> (Entity, ChildType, Vec2) {
    (projectiles[h.0].child.parent_actor, projectiles[h.0].child.ability_type, projectiles[h.0].position)
}

/// Projectiles damaging actors. `targets` are the actors damage can hit and
/// `damageables` their invulnerability, index by index; `others` the actors
/// it cannot hit; `touching[p][t]` whether projectile `p` intersects target
/// `t` (or one of its sensors). First the projectiles hit targets (see
/// `find_collisions`); each hit deals the projectile's damage to the target
/// on behalf of the projectile's owner. Then, for each hit in order, the
/// owner's on-hit effects for the projectile's kind of ability apply (see
/// `apply_ability_hits`). Returns the hits, the projectiles destroyed (those
/// that hit and are destroyed on damage, in order), the damage the hits
/// deal, in order, and the world access with what the on-hit effects
/// requested.
pub fn s_collision_projectiles_damage(
    projectiles: &mut Vec<Projectile>,
    damageables: &mut Vec<Damageable>,
    targets: &mut Vec<ActorReference>,
    others: &mut Vec<ActorReference>,
    touching: &Vec<Vec<bool>>,
    world_access: EffectContextWorldAccess,
) -> (r: (Vec<(usize, usize)>, Vec<Entity>, Vec<DamageEvent>, EffectContextWorldAccess))
    requires
        old(targets)@.len() == old(damageables)@.len(),
        touching@.len() == old(projectiles)@.len(),
        forall|p: int| 0 <= p < touching@.len() ==> #[trigger] touching@[p]@.len() == old(damageables)@.len(),
    ensures
        ({
            let (ts, hs) = collisions(old(projectiles)@, touching_rows(touching@), old(damageables)@, old(projectiles)@.len());
            let ability_hits = hs.map_values(|h: (int, int)| hit_record(old(projectiles)@, h));
            &&& final(damageables)@ == ts
            &&& pairs_as_ints(r.0@) == hs
            &&& r.1@ == destroyed_projectiles(old(projectiles)@, touching_rows(touching@), old(damageables)@)
            &&& r.2@ == hs.map_values(|h: (int, int)| hit_event(old(projectiles)@, old(targets)@, h))
            &&& final(targets)@.len() == old(targets)@.len()
            &&& final(others)@.len() == old(others)@.len()
            &&& forall|i: int| 0 <= i < old(targets)@.len() ==> actor_gains(old(targets)@[i],
                    flat_map(ability_hits, hit_status_fn(old(targets)@, old(others)@, HitActor::Damageable(i as usize), old(targets)@[i])),
                    #[trigger] final(targets)@[i])
            &&& forall|k: int| 0 <= k < old(others)@.len() ==> actor_gains(old(others)@[k],
                    flat_map(ability_hits, hit_status_fn(old(targets)@, old(others)@, HitActor::Other(k as usize), old(others)@[k])),
                    #[trigger] final(others)@[k])
            &&& world_gains(world_access, flat_map(ability_hits, hit_damage_fn(old(targets)@, old(others)@)),
                    flat_map(ability_hits, hit_spawn_fn(old(targets)@, old(others)@)), r.3)
        }),
        final(projectiles)@.len() == old(projectiles)@.len(),
        forall|p: int| 0 <= p < old(projectiles)@.len() ==> #[trigger] final(projectiles)@[p] == after_projectile(old(projectiles)@[p],
            projectile_hits(old(projectiles)@[p].damage, touching@[p]@,
                collisions(old(projectiles)@, touching_rows(touching@), old(damageables)@, p as nat).0)),
{
    let ghost ps = projectiles@;
    let ghost tg = targets@;
    let (hits, destroyed) = find_collisions(projectiles, damageables, touching);
    let ghost hs = pairs_as_ints(hits@);
    let mut events: Vec<DamageEvent> = Vec::new();
    let mut ability_hits: Vec<(Entity, ChildType, Vec2)> = Vec::new();
    let mut j: usize = 0;
    while j < hits.len()
        invariant
            j <= hits@.len(),
            hs == pairs_as_ints(hits@),
            targets@ == tg,
            projectiles@.len() == ps.len(),
            forall|q: int| 0 <= q < ps.len() ==> #[trigger] projectiles@[q] == after_projectile(ps[q],
                projectile_hits(ps[q].damage, touching@[q]@, collisions(ps, touching_rows(touching@), old(damageables)@, q as nat).0)),
            forall|i: int| 0 <= i < hits@.len() ==> #[trigger] hits@[i].0 < ps.len() && hits@[i].1 < tg.len(),
            events@ == hs.take(j as int).map_values(|h: (int, int)| hit_event(ps, tg, h)),
            ability_hits@ == hs.take(j as int).map_values(|h: (int, int)| hit_record(ps, h)),
        decreases hits@.len() - j,
    {
        let (p, t) = hits[j];
        assert(hits@[j as int].0 < ps.len() && hits@[j as int].1 < tg.len());
        let proj = projectiles[p];
        events.push(DamageEvent { instigator: proj.child.parent_actor, victim: targets[t].entity, damage: proj.damage.damage });
        ability_hits.push((proj.child.parent_actor, proj.child.ability_type, proj.position));
        proof {
            assert(projectiles@[p as int] == after_projectile(ps[p as int],
                projectile_hits(ps[p as int].damage, touching@[p as int]@, collisions(ps, touching_rows(touching@), old(damageables)@, p as nat).0)));
            assert(hs[j as int] == (p as int, t as int));
            assert(hs.take(j + 1) =~= hs.take(j as int).push(hs[j as int]));
            assert(events@ =~= hs.take(j + 1).map_values(|h: (int, int)| hit_event(ps, tg, h)));
            assert(ability_hits@ =~= hs.take(j + 1).map_values(|h: (int, int)| hit_record(ps, h)));
        }
        j = j + 1;
    }
    proof {
        assert(hs.take(hits@.len() as int) =~= hs);
    }
    let world = apply_ability_hits(targets, others, &ability_hits, world_access);
    (hits, destroyed, events, world)
}


proof fn lemma_eligible_hits(touching: Seq<bool>, targets: Seq<Damageable>, ix: Seq<int>)
    requires
        forall|i: int| 0 <= i < ix.len() ==> 0 <= #[trigger] ix[i] < targets.len(),
    ensures
        forall|j: int| 0 <= j < flat_map(ix, eligible_fn(touching, targets)).len() ==> {
            let t = #[trigger] flat_map(ix, eligible_fn(touching, targets))[j];
            &&& 0 <= t < targets.len()
            &&& touching[t]
            &&& hittable(targets[t])
        },
    decreases ix.len(),
{
    let f = eligible_fn(touching, targets);
    if ix.len() > 0 {
        let init = ix.drop_last();
        assert forall|i: int| 0 <= i < init.len() implies 0 <= #[trigger] init[i] < targets.len() by {
            assert(init[i] == ix[i]);
        }
        lemma_eligible_hits(touching, targets, init);
        let all = flat_map(ix, f);
        assert(all == flat_map(init, f) + f(ix.last()));
        assert forall|j: int| 0 <= j < all.len() implies {
            let t = #[trigger] all[j];
            &&& 0 <= t < targets.len()
            &&& touching[t]
            &&& hittable(targets[t])
        } by {
            if j >= flat_map(init, f).len() {
                assert(ix[ix.len() - 1] == ix.last());
            }
        }
    }
}

/// Every target a projectile hits is one it touches and that could be hit;
/// a projectile that deals its damage once hits at most one target, and
/// none once it has done damage.
pub proof fn lemma_projectile_hits(damage: Damage, touching: Seq<bool>, targets: Seq<Damageable>)
    ensures
        forall|j: int| 0 <= j < projectile_hits(damage, touching, targets).len() ==> {
            let t = #[trigger] projectile_hits(damage, touching, targets)[j];
            &&& 0 <= t < targets.len()
            &&& touching[t]
            &&& hittable(targets[t])
        },
        damage.deal_damage_once ==> projectile_hits(damage, touching, targets).len() <= 1,
        damage.deal_damage_once && damage.did_damage ==> projectile_hits(damage, touching, targets).len() == 0,
{
    let ix = indices(targets.len());
    lemma_eligible_hits(touching, targets, ix);
}

} // verus!
