use vstd::prelude::*;

use crate::float::{Float, spec_zero, zero};
use crate::stats::{Stat, StatusEffect, SerializedStat};
use crate::effect::{ChildType, SerializedEffectTrigger};

verus! {

/// An entity of the game world, identified by its 64-bit id.
#[derive(Clone, Copy, Debug, PartialEq, Eq, Hash, Structural)]
pub struct Entity {
    pub bits: u64,
}

impl Entity {
    /// The id that stands for no entity of the world.
    pub open spec fn spec_placeholder() -> Entity {
        Entity { bits: 0xffff_ffff_ffff_ffff }
    }

    /// An entity that stands for no entity of the world, for a value that
    /// needs one before the real one is known.
    pub fn placeholder() -> (r: Entity)
        ensures
            r == Entity::spec_placeholder(),
    {
        Entity { bits: 0xffff_ffff_ffff_ffff }
    }
}

/// Who is responsible for damage an actor took last.
#[derive(Clone, Copy, Debug, PartialEq, Eq, Structural)]
pub enum DamageSource {
    Actor(Entity),
    Other,
}

/// Damage (negative for healing) that `instigator` deals to `victim`.
#[derive(Clone, Copy, Debug)]
pub struct DamageEvent {
    pub instigator: Entity,
    pub victim: Entity,
    pub damage: Float,
}

/// The map from stats to values built from a list of entries; a later entry
/// for a stat replaces an earlier one.
pub open spec fn stat_map(entries: Seq<SerializedStat>) -> Map<Stat, Float>
    decreases entries.len(),
{
    if entries.len() == 0 {
        Map::empty()
    } else {
        stat_map(entries.drop_last()).insert(entries.last().stat, entries.last().value)
    }
}

/// The value a map gives a stat, if any.
pub open spec fn stat_lookup(m: Map<Stat, Float>, stat: Stat) -> Option<Float> {
    if m.contains_key(stat) { Some(m[stat]) } else { None }
}

/// The stats of an actor: at most one value per stat.
pub struct StatMap {
    entries: Vec<SerializedStat>,
}

impl View for StatMap {
    type V = Map<Stat, Float>;

    closed spec fn view(&self) -> Map<Stat, Float> {
        stat_map(self.entries@)
    }
}

proof fn lemma_stat_map_domain(entries: Seq<SerializedStat>, stat: Stat)
    ensures
        stat_map(entries).contains_key(stat) <==> exists|i: int| 0 <= i < entries.len() && entries[i].stat == stat,
    decreases entries.len(),
{
    if entries.len() > 0 {
        lemma_stat_map_domain(entries.drop_last(), stat);
        if stat_map(entries).contains_key(stat) && entries.last().stat != stat {
            let i = choose|i: int| 0 <= i < entries.len() - 1 && entries.drop_last()[i].stat == stat;
            assert(entries[i].stat == stat);
        }
        if exists|i: int| 0 <= i < entries.len() && entries[i].stat == stat {
            let i = choose|i: int| 0 <= i < entries.len() && entries[i].stat == stat;
            if i < entries.len() - 1 {
                assert(entries.drop_last()[i].stat == stat);
            }
        }
    }
}

/// With distinct stats, the value of the entry for `entries[i].stat` is `entries[i].value`.
proof fn lemma_stat_map_at(entries: Seq<SerializedStat>, i: int)
    requires
        0 <= i < entries.len(),
        distinct_stats(entries),
    ensures
        stat_map(entries).contains_key(entries[i].stat),
        stat_map(entries)[entries[i].stat] == entries[i].value,
    decreases entries.len(),
{
    if i < entries.len() - 1 {
        lemma_stat_map_at(entries.drop_last(), i);
        assert(entries.drop_last()[i] == entries[i]);
        assert(entries.last().stat != entries[i].stat);
    }
}

/// Replacing the value of the entry at `i` replaces the value of its stat.
proof fn lemma_stat_map_update(entries: Seq<SerializedStat>, i: int, value: Float)
    requires
        0 <= i < entries.len(),
        distinct_stats(entries),
    ensures
        stat_map(entries.update(i, SerializedStat { stat: entries[i].stat, value })) =~= stat_map(entries).insert(entries[i].stat, value),
    decreases entries.len(),
{
    let updated = entries.update(i, SerializedStat { stat: entries[i].stat, value });
    if i == entries.len() - 1 {
        assert(updated.drop_last() =~= entries.drop_last());
        lemma_stat_map_domain(entries.drop_last(), entries[i].stat);
        assert forall|k: Stat| #[trigger] stat_map(updated).contains_key(k) <==> stat_map(entries).insert(entries[i].stat, value).contains_key(k) by {}
    } else {
        lemma_stat_map_update(entries.drop_last(), i, value);
        assert(updated.drop_last() =~= entries.drop_last().update(i, SerializedStat { stat: entries[i].stat, value }));
        assert(entries.last().stat != entries[i].stat);
    }
}

pub open spec fn distinct_stats(entries: Seq<SerializedStat>) -> bool {
    forall|i: int, j: int| 0 <= i < entries.len() && 0 <= j < entries.len() && i != j ==> entries[i].stat != entries[j].stat
}

impl StatMap {
    #[verifier::type_invariant]
    spec fn inv(self) -> bool {
        distinct_stats(self.entries@)
    }

    /// A map without stats.
    pub fn new() -> (r: StatMap)
        ensures r@ == Map::<Stat, Float>::empty(),
    {
        StatMap { entries: Vec::new() }
    }

    fn find(&self, stat: &Stat) -> (r: Option<usize>)
        ensures
            match r {
                Some(i) => i < self.entries@.len() && self.entries@[i as int].stat == *stat,
                None => forall|j: int| 0 <= j < self.entries@.len() ==> self.entries@[j].stat != *stat,
            },
    {
        let mut i: usize = 0;
        while i < self.entries.len()
            invariant
                i <= self.entries@.len(),
                forall|j: int| 0 <= j < i ==> self.entries@[j].stat != *stat,
            decreases self.entries@.len() - i,
        {
            if self.entries[i].stat == *stat {
                return Some(i);
            }
            i = i + 1;
        }
        None
    }

    /// The value of `stat`, if it has one.
    pub fn get(&self, stat: &Stat) -> (r: Option<Float>)
        ensures r == stat_lookup(self@, *stat),
    {
        proof { use_type_invariant(self); }
        match self.find(stat) {
            Some(i) => {
                proof { lemma_stat_map_at(self.entries@, i as int); }
                Some(self.entries[i].value)
            },
            None => {
                proof { lemma_stat_map_domain(self.entries@, *stat); }
                None
            },
        }
    }

    /// Gives `stat` the value `value`, replacing any value it had.
    pub fn insert(&mut self, stat: Stat, value: Float)
        ensures final(self)@ == old(self)@.insert(stat, value),
    {
        proof { use_type_invariant(&*self); }
        let found = self.find(&stat);
        let mut entries = Vec::new();
        std::mem::swap(&mut entries, &mut self.entries);
        match found {
            Some(i) => {
                proof { lemma_stat_map_update(entries@, i as int, value); }
                entries.set(i, SerializedStat { stat, value });
                assert(distinct_stats(entries@));
            },
            None => {
                let ghost old_entries = entries@;
                entries.push(SerializedStat { stat, value });
                assert(entries@.drop_last() =~= old_entries);
                assert(distinct_stats(entries@));
            },
        }
        self.entries = entries;
    }

    /// Removes every stat.
    pub fn clear(&mut self)
        ensures final(self)@ == Map::<Stat, Float>::empty(),
    {
        self.entries = Vec::new();
        assert(self.entries@.len() == 0);
    }

    /// Whether `stat` has a value.
    pub fn contains_key(&self, stat: &Stat) -> (r: bool)
        ensures r == self@.contains_key(*stat),
    {
        let v = self.get(stat);
        v.is_some()
    }
}

/// Everything that makes an entity an actor: its effect triggers, its active
/// status effects, its stats and who last damaged it.
pub struct ActorContext {
    pub effects: Vec<SerializedEffectTrigger>,
    pub status_effects: Vec<StatusEffect>,
    pub stats: StatMap,
    pub last_damage_source: Option<DamageSource>,
}

impl Default for ActorContext {
    fn default() -> (r: Self)
        ensures
            r.effects@.len() == 0,
            r.status_effects@.len() == 0,
            r.stats@ == Map::<Stat, Float>::empty(),
            r.last_damage_source is None,
    {
        ActorContext {
            effects: Vec::new(),
            status_effects: Vec::new(),
            stats: StatMap::new(),
            last_damage_source: None,
        }
    }
}

impl ActorContext {
    /// The value of `stat`, if the actor has one.
    pub fn get_stat(&self, stat: &Stat) -> (r: Option<Float>)
        ensures r == stat_lookup(self.stats@, *stat),
    {
        self.stats.get(stat)
    }

    /// The value of `stat`; a stat the actor did not have is created with
    /// the value 0.0 first.
    pub fn get_or_create_stat(&mut self, stat: Stat) -> (r: Float)
        ensures
            old(self).stats@.contains_key(stat) ==> r == old(self).stats@[stat] && final(self).stats@ == old(self).stats@,
            !old(self).stats@.contains_key(stat) ==> r == spec_zero() && final(self).stats@ == old(self).stats@.insert(stat, spec_zero()),
            final(self).effects@ == old(self).effects@,
            final(self).status_effects@ == old(self).status_effects@,
            final(self).last_damage_source == old(self).last_damage_source,
    {
        if let Some(val) = self.stats.get(&stat) {
            return val;
        }
        self.stats.insert(stat, zero());
        zero()
    }

    /// Sets `stat` to `value`, creating it if needed.
    pub fn set_stat(&mut self, stat: Stat, value: Float)
        ensures
            final(self).stats@ == old(self).stats@.insert(stat, value),
            final(self).effects@ == old(self).effects@,
            final(self).status_effects@ == old(self).status_effects@,
            final(self).last_damage_source == old(self).last_damage_source,
    {
        self.stats.insert(stat, value);
    }
}

/// Reading a stat after setting it gives the value set; every other stat
/// reads as before.
pub proof fn lemma_get_after_set(stats: Map<Stat, Float>, stat: Stat, value: Float, other: Stat)
    ensures
        stat_lookup(stats.insert(stat, value), stat) == Some(value),
        other != stat ==> stat_lookup(stats.insert(stat, value), other) == stat_lookup(stats, other),
{
}

/// Creating a stat that exists changes nothing, and a created stat exists
/// afterwards, so a second `get_or_create_stat` of it changes nothing either.
pub proof fn lemma_get_or_create_is_idempotent(stats: Map<Stat, Float>, stat: Stat)
    ensures
        ({
            let after = if stats.contains_key(stat) { stats } else { stats.insert(stat, spec_zero()) };
            after.contains_key(stat) && stat_lookup(after, stat) == if stats.contains_key(stat) { Some(stats[stat]) } else { Some(spec_zero()) }
        }),
{
}


/// Marks an entity created by or for an actor (an ability's projectile, say)
/// that applies effects on that actor's behalf.
#[derive(Clone, Copy, Debug)]
pub struct ActorChild {
    pub parent_actor: Entity,
    pub ability_type: ChildType,
}

/// The sensor entities of an actor.
pub struct ActorSensors {
    pub sensors: Vec<Entity>,
}


/// Setting two different stats gives the same stats in either order.
pub proof fn lemma_set_stats_commute(stats: Map<Stat, Float>, a: Stat, x: Float, b: Stat, y: Float)
    requires
        a != b,
    ensures
        stats.insert(a, x).insert(b, y) == stats.insert(b, y).insert(a, x),
{
    assert(stats.insert(a, x).insert(b, y) =~= stats.insert(b, y).insert(a, x));
}

/// Setting a stat twice keeps only the second value.
pub proof fn lemma_set_stat_twice(stats: Map<Stat, Float>, a: Stat, x: Float, y: Float)
    ensures
        stats.insert(a, x).insert(a, y) == stats.insert(a, y),
{
    assert(stats.insert(a, x).insert(a, y) =~= stats.insert(a, y));
}

} // verus!
