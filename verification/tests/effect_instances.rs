use simple_game::actor::{ActorContext, Entity};
use simple_game::common::{Position, Vec2};
use simple_game::effect::{
    ChildType, DamageActor, SerializedActorEffect, SerializedDeathEffect, SerializedKillEffect, SerializedOnHitEffect, SpawnLocation, SpawnType,
};
use simple_game::effect_application::{
    ActorDamageEffectContext, ActorDeathEffectContext, ActorEffectContext, ActorKillEffectContext, ActorOnHitEffectContext,
    ActorReference, EffectContextWorldAccess,
};
use simple_game::effect_instances::{ActorEffect, DamageEffect, EffectTrigger, OnHitEffect, SerializedEffectTrigger};
use simple_game::effect_objects::SerializedDamageEffect;
use simple_game::float::Float;
use simple_game::stats::{Stat, StatModification, StatusEffect};
use simple_game::text::TextPiece;

fn f(x: f32) -> Float {
    Float::new(x.to_bits())
}

fn actor(id: u64) -> ActorReference {
    ActorReference { entity: Entity { bits: id }, context: ActorContext::default(), location: Position(Vec2 { x: f(1.0), y: f(2.0) }) }
}

fn world() -> EffectContextWorldAccess {
    EffectContextWorldAccess { spawn_requests: Vec::new(), damage_instances: Vec::new() }
}

fn status() -> StatusEffect {
    StatusEffect { timeout: None, modification: StatModification::Add { amount: f(1.0) }, stat: Stat::Armor }
}

fn explosion() -> SpawnType {
    SpawnType::Explosion { radius: f(1.0), damage: f(2.0), knockback_strength: f(0.0) }
}

fn same_actor_effect(a: SerializedActorEffect, b: SerializedActorEffect) -> bool {
    format!("{:?}", a) == format!("{:?}", b)
}

#[test]
fn instances_serialize_back() {
    let actor_effects = [
        SerializedActorEffect::InflictStatusEffect(status()),
        SerializedActorEffect::SpawnEffect(explosion(), SpawnLocation::AtHitEnemy),
        SerializedActorEffect::AffectHealth(f(-3.0)),
    ];
    for e in actor_effects {
        assert!(same_actor_effect(e.instantiate().serialize_into(), e));
        let k: SerializedKillEffect = e.into();
        assert_eq!(format!("{:?}", k.instantiate().serialize_into_kill()), format!("{:?}", k));
        let d: SerializedDeathEffect = e.into();
        assert_eq!(format!("{:?}", d.instantiate().serialize_into_death()), format!("{:?}", d));
        let h = SerializedOnHitEffect::RegularEffect { effect: e };
        assert_eq!(format!("{:?}", h.instantiate().serialize_into()), format!("{:?}", h));
    }
    let damage_effects = [
        SerializedDamageEffect::MultiplyDamageEffect { factor: f(2.0) },
        SerializedDamageEffect::AddDamageEffect { amount: f(-1.0) },
        SerializedDamageEffect::SpawnObjectAt { which_actor: DamageActor::Instigator, spawn_type: explosion() },
        SerializedDamageEffect::RegularEffect { effect: SerializedActorEffect::AffectHealth(f(1.0)) },
    ];
    for d in damage_effects {
        assert_eq!(format!("{:?}", d.instantiate().serialize_into()), format!("{:?}", d));
    }
    let at_hit = SerializedOnHitEffect::SpawnEffectAtHitLocation { spawn_type: explosion() };
    assert!(matches!(at_hit.instantiate(), OnHitEffect::SpawnAtHit(s) if s.which_actor == DamageActor::Victim));
}

#[test]
fn instances_apply_like_their_serialized_form() {
    let e = SerializedActorEffect::InflictStatusEffect(status()).instantiate();
    let mut ctx = ActorEffectContext { world_access: world(), actor: actor(1) };
    e.apply_effect(&mut ctx);
    assert_eq!(ctx.actor.context.status_effects.len(), 1);

    let wrapped = SerializedKillEffect::RegularEffect { effect: SerializedActorEffect::AffectHealth(f(4.0)) }.instantiate();
    let mut kill = ActorKillEffectContext { world_access: world(), instigator: actor(1), victim: actor(2) };
    wrapped.apply_kill_effect(&mut kill);
    assert_eq!(kill.world_access.damage_instances.len(), 1);
    assert_eq!(kill.world_access.damage_instances[0].victim, Entity { bits: 1 });
    assert_eq!(kill.world_access.damage_instances[0].damage.bits, (-4.0f32).to_bits());

    let mut death = ActorDeathEffectContext { world_access: world(), instigator: None, victim: actor(2) };
    assert!(!wrapped.apply_death_effect(&mut death));
    assert_eq!(death.world_access.damage_instances[0].victim, Entity { bits: 2 });

    let mut dmg = ActorDamageEffectContext { world_access: world(), instigator: actor(1), victim: Some(actor(2)) };
    let out = wrapped.process_damage(&mut dmg, DamageActor::Victim, f(7.0));
    assert_eq!(out.bits, 7.0f32.to_bits());
    assert_eq!(dmg.world_access.damage_instances[0].victim, Entity { bits: 2 });

    let hit = SerializedOnHitEffect::SpawnEffectAtHitLocation { spawn_type: explosion() }.instantiate();
    let mut on_hit = ActorOnHitEffectContext { world_access: world(), instigator: actor(1), victim: None, hit_location: Vec2 { x: f(9.0), y: f(9.0) } };
    hit.apply_effect(&mut on_hit);
    assert_eq!(on_hit.world_access.spawn_requests[0].location.x.bits, 9.0f32.to_bits());
}

#[test]
fn instances_describe_themselves() {
    let render = |pieces: Vec<TextPiece>| -> String {
        pieces
            .iter()
            .map(|p| match p {
                TextPiece::Text(t) => t.to_string(),
                TextPiece::Number(x) => format!("{}", f32::from_bits(x.bits)),
                TextPiece::PercentBelowOne(x) => format!("{}", (1.0 - f32::from_bits(x.bits)) * 100.0),
                TextPiece::PercentAboveOne(x) => format!("{}", (f32::from_bits(x.bits) - 1.0) * 100.0),
            })
            .collect()
    };
    let factor = SerializedDamageEffect::MultiplyDamageEffect { factor: f(2.0) }.instantiate();
    assert!(matches!(factor, DamageEffect::Factor(_)));
    assert_eq!(render(factor.describe()), "increase damage dealt by 100%");
    let heal = SerializedActorEffect::AffectHealth(f(0.0)).instantiate();
    assert!(matches!(heal, ActorEffect::AffectHealth(_)));
    assert_eq!(render(heal.describe()), "Does nothing");
}

#[test]
fn triggers_serialize_back() {
    let triggers = [
        SerializedEffectTrigger::OnDamage(SerializedDamageEffect::AddDamageEffect { amount: f(5.0) }),
        SerializedEffectTrigger::Periodically { remaining_period: f(0.0), period: f(2.0), effect: SerializedActorEffect::AffectHealth(f(1.0)) },
        SerializedEffectTrigger::OnKill(SerializedActorEffect::InflictStatusEffect(status()).into()),
        SerializedEffectTrigger::OnDeath(SerializedActorEffect::AffectHealth(f(1.0)).into()),
        SerializedEffectTrigger::OnReceiveDamage(SerializedDamageEffect::MultiplyDamageEffect { factor: f(0.5) }),
        SerializedEffectTrigger::OnAbilityCast { ability_type: ChildType::Grenade, effect: SerializedActorEffect::AffectHealth(f(1.0)) },
        SerializedEffectTrigger::OnAbilityHit { ability_type: ChildType::Missile, effect: SerializedOnHitEffect::SpawnEffectAtHitLocation { spawn_type: explosion() } },
        SerializedEffectTrigger::OnAbilityEnd { ability_type: ChildType::Melee, effect: SerializedActorEffect::InflictStatusEffect(status()) },
    ];
    for t in triggers {
        let instance = t.instantiate();
        assert_eq!(format!("{:?}", instance.serialize_into()), format!("{:?}", t));
    }
    assert!(matches!(triggers[0].instantiate(), EffectTrigger::OnDamage(DamageEffect::Addition(_))));
}
