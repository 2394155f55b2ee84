use simple_game::effect::{
    DamageActor, SerializedActorEffect, SerializedDamageChangeEffect, SerializedDamageViewEffect, SerializedEffectTrigger,
};
use simple_game::actor::{ActorContext, Entity};
use simple_game::common::{Position, Vec2};
use simple_game::damage::{another_damage_round, route_damage_event, DamageRoute, MAX_DAMAGE_ROUNDS};
use simple_game::actor::DamageEvent;
use simple_game::effect::SpawnType;
use simple_game::effect_application::{
    collect_damage_change_effects, collect_damage_view_effects, ActorDamageEffectContext, ActorReference, EffectContextWorldAccess,
};
use simple_game::float::Float;
use simple_game::stats::{Stat, StatModification, StatusEffect};

fn f(x: f32) -> Float {
    Float::new(x.to_bits())
}

fn triggers() -> Vec<SerializedEffectTrigger> {
    let heal = SerializedActorEffect::AffectHealth(f(1.0));
    vec![
        SerializedEffectTrigger::OnDoDamage(SerializedDamageChangeEffect::AddDamageEffect { amount: f(5.0) }),
        SerializedEffectTrigger::OnReceiveDamage(SerializedDamageChangeEffect::MultiplyDamageEffect { factor: f(0.5) }),
        SerializedEffectTrigger::OnDeath(heal.into()),
        SerializedEffectTrigger::OnDoDamage(SerializedDamageChangeEffect::MultiplyDamageEffect { factor: f(2.0) }),
        SerializedEffectTrigger::OnDamageDone(SerializedDamageViewEffect::RegularEffect { effect: heal }),
        SerializedEffectTrigger::OnDamageReceived(SerializedDamageViewEffect::EveryXDamageEffect {
            accumulated_damage: f(0.0),
            damage_threshold: f(10.0),
            which_actor: DamageActor::Victim,
            effect: heal,
        }),
    ]
}

#[test]
fn damage_done_changes_in_trigger_order() {
    let effects = collect_damage_change_effects(&triggers(), DamageActor::Instigator);
    assert_eq!(effects.len(), 2);
    assert!(matches!(effects[0], SerializedDamageChangeEffect::AddDamageEffect { amount } if amount.bits == 5.0f32.to_bits()));
    assert!(matches!(effects[1], SerializedDamageChangeEffect::MultiplyDamageEffect { factor } if factor.bits == 2.0f32.to_bits()));
}

#[test]
fn damage_received_changes() {
    let effects = collect_damage_change_effects(&triggers(), DamageActor::Victim);
    assert_eq!(effects.len(), 1);
    assert!(matches!(effects[0], SerializedDamageChangeEffect::MultiplyDamageEffect { factor } if factor.bits == 0.5f32.to_bits()));
}

#[test]
fn damage_views_by_part() {
    let done = collect_damage_view_effects(&triggers(), DamageActor::Instigator);
    assert_eq!(done.len(), 1);
    assert!(matches!(done[0], SerializedDamageViewEffect::RegularEffect { .. }));
    let received = collect_damage_view_effects(&triggers(), DamageActor::Victim);
    assert_eq!(received.len(), 1);
    assert!(matches!(received[0], SerializedDamageViewEffect::EveryXDamageEffect { .. }));
    assert!(collect_damage_view_effects(&Vec::new(), DamageActor::Victim).is_empty());
}

fn actor(id: u64, x: f32) -> ActorReference {
    ActorReference { entity: Entity { bits: id }, context: ActorContext::default(), location: Position(Vec2 { x: f(x), y: f(0.0) }) }
}

fn context(with_victim: bool) -> ActorDamageEffectContext {
    ActorDamageEffectContext {
        world_access: EffectContextWorldAccess { spawn_requests: Vec::new(), damage_instances: Vec::new() },
        instigator: actor(1, 1.0),
        victim: if with_victim { Some(actor(2, 2.0)) } else { None },
    }
}

fn every_ten_damage() -> SerializedDamageViewEffect {
    let armor = StatusEffect { timeout: None, modification: StatModification::Add { amount: f(1.0) }, stat: Stat::Armor };
    SerializedDamageViewEffect::EveryXDamageEffect {
        accumulated_damage: f(8.0),
        damage_threshold: f(10.0),
        which_actor: DamageActor::Victim,
        effect: SerializedActorEffect::InflictStatusEffect(armor),
    }
}

fn accumulator(e: &SerializedDamageViewEffect) -> u32 {
    match e {
        SerializedDamageViewEffect::EveryXDamageEffect { accumulated_damage, .. } => accumulated_damage.bits,
        SerializedDamageViewEffect::EveryXHealedEffect { accumulated_healing, .. } => accumulated_healing.bits,
        _ => 0,
    }
}

#[test]
fn every_x_damage_fires_at_its_threshold() {
    let mut effect = every_ten_damage();
    let mut ctx = context(true);
    effect.apply_effect(&mut ctx, DamageActor::Victim, f(12.0), f(2.0));
    assert_eq!(accumulator(&effect), 2.0f32.to_bits());
    assert_eq!(ctx.victim.as_ref().map(|v| v.context.status_effects.len()), Some(1));
    assert!(ctx.instigator.context.status_effects.is_empty());
}

#[test]
fn every_x_damage_accumulates_below_its_threshold() {
    let mut effect = every_ten_damage();
    let mut ctx = context(true);
    effect.apply_effect(&mut ctx, DamageActor::Victim, f(9.5), f(-0.5));
    assert_eq!(accumulator(&effect), 9.5f32.to_bits());
    assert_eq!(ctx.victim.as_ref().map(|v| v.context.status_effects.len()), Some(0));
    // A NaN sum never reaches the threshold.
    effect.apply_effect(&mut ctx, DamageActor::Victim, f(f32::NAN), f(f32::NAN));
    assert_eq!(ctx.victim.as_ref().map(|v| v.context.status_effects.len()), Some(0));
}

#[test]
fn the_victim_of_self_damage_is_the_instigator() {
    let mut effect = every_ten_damage();
    let mut ctx = context(false);
    effect.apply_effect(&mut ctx, DamageActor::Victim, f(10.0), f(0.0));
    assert_eq!(ctx.instigator.context.status_effects.len(), 1);
}

#[test]
fn spawn_object_at_the_named_actor() {
    let mut effect = SerializedDamageViewEffect::SpawnObjectAt {
        which_actor: DamageActor::Instigator,
        spawn_type: SpawnType::Explosion { radius: f(1.0), damage: f(2.0), knockback_strength: f(0.0) },
    };
    let mut ctx = context(true);
    effect.apply_effect(&mut ctx, DamageActor::Victim, f(0.0), f(0.0));
    assert_eq!(ctx.world_access.spawn_requests.len(), 1);
    assert_eq!(ctx.world_access.spawn_requests[0].owner, Entity { bits: 1 });
    assert_eq!(ctx.world_access.spawn_requests[0].location.x.bits, 1.0f32.to_bits());
}

#[test]
fn a_regular_view_effect_applies_to_its_owner() {
    let mut regular = SerializedDamageViewEffect::RegularEffect { effect: SerializedActorEffect::AffectHealth(f(1.0)) };
    let mut ctx = context(true);
    regular.apply_effect(&mut ctx, DamageActor::Instigator, f(0.0), f(0.0));
    assert!(ctx.world_access.spawn_requests.is_empty());
    assert_eq!(ctx.world_access.damage_instances.len(), 1);
    assert_eq!(ctx.world_access.damage_instances[0].victim, Entity { bits: 1 });
    assert_eq!(ctx.world_access.damage_instances[0].damage.bits, (-1.0f32).to_bits());
    let armor = StatusEffect { timeout: None, modification: StatModification::Add { amount: f(1.0) }, stat: Stat::Armor };
    let mut inflict = SerializedDamageViewEffect::RegularEffect { effect: SerializedActorEffect::InflictStatusEffect(armor) };
    inflict.apply_effect(&mut ctx, DamageActor::Victim, f(0.0), f(0.0));
    assert_eq!(ctx.victim.as_ref().map(|v| v.context.status_effects.len()), Some(1));
    assert!(ctx.instigator.context.status_effects.is_empty());
    // Without a victim, the victim's part falls to the instigator.
    let mut alone = context(false);
    inflict.apply_effect(&mut alone, DamageActor::Victim, f(0.0), f(0.0));
    assert_eq!(alone.instigator.context.status_effects.len(), 1);
}

#[test]
fn damage_events_find_their_actors() {
    let e = |id: u64| Entity { bits: id };
    let actors = vec![e(1), e(2), e(3)];
    let event = |i: u64, v: u64| DamageEvent { instigator: e(i), victim: e(v), damage: f(1.0) };
    assert_eq!(route_damage_event(&event(2, 2), &actors), DamageRoute::SelfDamage(1));
    assert_eq!(route_damage_event(&event(9, 9), &actors), DamageRoute::Skip);
    assert_eq!(route_damage_event(&event(3, 1), &actors), DamageRoute::Between(2, 0));
    assert_eq!(route_damage_event(&event(3, 9), &actors), DamageRoute::Skip);
    assert_eq!(route_damage_event(&event(9, 1), &actors), DamageRoute::Skip);
}

#[test]
fn damage_rounds_stop_when_done_or_after_ten() {
    assert!(another_damage_round(true, false, 0));
    assert!(another_damage_round(false, true, 9));
    assert!(!another_damage_round(false, false, 0));
    assert!(!another_damage_round(true, true, MAX_DAMAGE_ROUNDS));
    assert_eq!(MAX_DAMAGE_ROUNDS, 10);
}
