use simple_game::actor::{ActorChild, ActorContext, DamageSource, Entity};
use simple_game::common::{Position, Vec2};
use simple_game::deaths::{find_killer, resolve_death, s_destroy_dead_things, KillerLocation};
use simple_game::effect::{ChildType, SerializedActorEffect, SerializedEffectTrigger, SpawnLocation, SpawnType};
use simple_game::effect_application::{ActorReference, EffectContextWorldAccess};
use simple_game::float::Float;
use simple_game::stats::{Stat, StatModification, StatusEffect};

fn f(x: f32) -> Float {
    Float::new(x.to_bits())
}

fn e(id: u64) -> Entity {
    Entity { bits: id }
}

fn world() -> EffectContextWorldAccess {
    EffectContextWorldAccess { spawn_requests: Vec::new(), damage_instances: Vec::new() }
}

fn status(stat: Stat) -> StatusEffect {
    StatusEffect { timeout: None, modification: StatModification::Add { amount: f(1.0) }, stat }
}

fn actor(id: u64, effects: Vec<SerializedEffectTrigger>, killer: Option<DamageSource>) -> ActorReference {
    let mut context = ActorContext::default();
    context.effects = effects;
    context.last_damage_source = killer;
    ActorReference { entity: e(id), context, location: Position(Vec2 { x: f(id as f32), y: f(0.0) }) }
}

fn on_kill(stat: Stat) -> SerializedEffectTrigger {
    SerializedEffectTrigger::OnKill(SerializedActorEffect::InflictStatusEffect(status(stat)).into())
}

fn on_death_heal(amount: f32) -> SerializedEffectTrigger {
    SerializedEffectTrigger::OnDeath(SerializedActorEffect::AffectHealth(f(amount)).into())
}

fn on_end(ability: ChildType, stat: Stat) -> SerializedEffectTrigger {
    SerializedEffectTrigger::OnAbilityEnd { ability_type: ability, effect: SerializedActorEffect::InflictStatusEffect(status(stat)) }
}

fn stats_of(a: &ActorReference) -> Vec<Stat> {
    a.context.status_effects.iter().map(|s| s.stat).collect()
}

#[test]
fn killer_is_looked_for_among_the_living_first() {
    let living = vec![e(1), e(2)];
    let dying = vec![e(2), e(3)];
    assert_eq!(find_killer(Some(DamageSource::Actor(e(2))), 1, &living, &dying), KillerLocation::Living(1));
    assert_eq!(find_killer(Some(DamageSource::Actor(e(3))), 0, &living, &dying), KillerLocation::Dying(1));
}

#[test]
fn a_victim_is_not_its_own_killer() {
    let living = vec![e(1)];
    let dying = vec![e(3)];
    assert_eq!(find_killer(Some(DamageSource::Actor(e(3))), 0, &living, &dying), KillerLocation::NotFound);
    assert_eq!(find_killer(Some(DamageSource::Actor(e(9))), 0, &living, &dying), KillerLocation::NotFound);
}

#[test]
fn deaths_without_a_killing_actor() {
    let living = vec![e(1)];
    let dying = vec![e(3)];
    assert_eq!(find_killer(None, 0, &living, &dying), KillerLocation::NoKiller);
    assert_eq!(find_killer(Some(DamageSource::Other), 0, &living, &dying), KillerLocation::NoKiller);
}

#[test]
fn resolve_death_applies_kill_then_death_effects() {
    let killer = actor(1, vec![on_kill(Stat::Damage)], None);
    let victim = actor(2, vec![on_death_heal(3.0), on_kill(Stat::Armor)], Some(DamageSource::Actor(e(1))));
    let (v, k, w) = resolve_death(victim, Some(killer), world());
    let k = k.expect("the killer comes back");
    assert_eq!(stats_of(&k), vec![Stat::Damage]);
    assert!(v.context.status_effects.is_empty());
    assert_eq!(w.damage_instances.len(), 1);
    assert_eq!(w.damage_instances[0].instigator, e(2));
    assert_eq!(w.damage_instances[0].victim, e(2));
    assert_eq!(w.damage_instances[0].damage.bits, (-3.0f32).to_bits());
}

#[test]
fn clean_up_of_a_frame() {
    let spawn = SerializedEffectTrigger::OnDeath(
        SerializedActorEffect::SpawnEffect(
            SpawnType::Explosion { radius: f(1.0), damage: f(2.0), knockback_strength: f(0.0) },
            SpawnLocation::AtCaster,
        )
        .into(),
    );
    let living = vec![
        actor(1, vec![on_kill(Stat::Damage), on_end(ChildType::Grenade, Stat::Armor)], None),
        actor(2, vec![], None),
    ];
    let dying = vec![
        actor(10, vec![on_death_heal(1.0), on_kill(Stat::MovementSpeed)], Some(DamageSource::Actor(e(1)))),
        actor(11, vec![spawn], Some(DamageSource::Actor(e(10)))),
        actor(12, vec![on_death_heal(5.0)], Some(DamageSource::Actor(e(99)))),
        actor(13, vec![on_death_heal(7.0)], None),
    ];
    let children = vec![
        (e(20), ActorChild { parent_actor: e(1), ability_type: ChildType::Grenade }),
        (e(21), ActorChild { parent_actor: e(1), ability_type: ChildType::Missile }),
        (e(22), ActorChild { parent_actor: e(77), ability_type: ChildType::Grenade }),
    ];
    let (living, dying, w, gone) = s_destroy_dead_things(living, dying, &children, &vec![e(50)], world());
    // The grenade's end, then the kill of actor 10.
    assert_eq!(stats_of(&living[0]), vec![Stat::Armor, Stat::Damage]);
    assert!(living[1].context.status_effects.is_empty());
    // Actor 10 killed actor 11 while dying itself.
    assert_eq!(stats_of(&dying[0]), vec![Stat::MovementSpeed]);
    // Damage: 10's on-death heal, 13's on-death heal; 12's killer is nowhere.
    let damage: Vec<(u64, u32)> = w.damage_instances.iter().map(|d| (d.victim.bits, d.damage.bits)).collect();
    assert_eq!(damage, vec![(10, (-1.0f32).to_bits()), (13, (-7.0f32).to_bits())]);
    // 11's on-death explosion, where 11 stood.
    assert_eq!(w.spawn_requests.len(), 1);
    assert_eq!(w.spawn_requests[0].owner, e(11));
    assert_eq!(w.spawn_requests[0].location.x.bits, 11.0f32.to_bits());
    // Everything dead goes: the ended abilities, the dying actors, the rest.
    let gone: Vec<u64> = gone.iter().map(|x| x.bits).collect();
    assert_eq!(gone, vec![20, 21, 22, 10, 11, 12, 13, 50]);
}

#[test]
fn an_ended_ability_of_a_dying_actor() {
    let living = vec![actor(1, vec![], None)];
    let dying = vec![actor(5, vec![on_end(ChildType::ChildActor, Stat::Armor)], None)];
    let children = vec![(e(5), ActorChild { parent_actor: e(4), ability_type: ChildType::ChildActor })];
    let (living, dying, w, _gone) = s_destroy_dead_things(living, dying, &children, &Vec::new(), world());
    assert!(living[0].context.status_effects.is_empty());
    assert_eq!(stats_of(&dying[0]), vec![Stat::Armor]);
    assert!(w.damage_instances.is_empty());
}
