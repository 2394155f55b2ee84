use simple_game::actor::{ActorContext, Entity};
use simple_game::common::{Position, Vec2};
use simple_game::effect::{DamageActor, SerializedActorEffect, SerializedOnHitEffect, SpawnLocation, SpawnType};
use simple_game::effect_application::{
    ActorDamageEffectContext, ActorEffectContext, ActorOnHitEffectContext, ActorReference, EffectContextWorldAccess,
};
use simple_game::effect_objects::{
    AffectHealthEffect, DamageAddition, DamageFactor, InflictStatusEffect, SerializedDamageEffect, SpawnAtHitEffect, SpawnEffect,
};
use simple_game::float::Float;
use simple_game::stats::{Stat, StatModification, StatusEffect};
use simple_game::text::TextPiece;

fn f(x: f32) -> Float {
    Float::new(x.to_bits())
}

fn render(pieces: &[TextPiece]) -> String {
    let mut s = String::new();
    for p in pieces {
        match p {
            TextPiece::Text(t) => s.push_str(t),
            TextPiece::Number(x) => s.push_str(&format!("{}", f32::from_bits(x.bits))),
            TextPiece::PercentBelowOne(x) => s.push_str(&format!("{}", (1.0 - f32::from_bits(x.bits)) * 100.0)),
            TextPiece::PercentAboveOne(x) => s.push_str(&format!("{}", (f32::from_bits(x.bits) - 1.0) * 100.0)),
        }
    }
    s
}

fn actor_ref(id: u64) -> ActorReference {
    ActorReference { entity: Entity { bits: id }, context: ActorContext::default(), location: Position(Vec2 { x: f(1.0), y: f(2.0) }) }
}

fn world() -> EffectContextWorldAccess {
    EffectContextWorldAccess { spawn_requests: Vec::new(), damage_instances: Vec::new() }
}

#[test]
fn damage_object_descriptions() {
    let d = |x: f32| render(&DamageFactor { factor: f(x) }.describe());
    assert_eq!(d(-1.0), "invert damage dealt (multiply by -1)");
    assert_eq!(d(1.0), "do nothing");
    assert_eq!(d(0.75), "decrease damage dealt by 25%");
    assert_eq!(d(3.0), "increase damage dealt by 200%");
    assert_eq!(d(-3.0), "multiply damage dealt by -3");
    let a = |x: f32| render(&DamageAddition { amount: f(x) }.describe());
    assert_eq!(a(0.0), "do nothing");
    assert_eq!(a(-2.0), "decrease damage dealt by 2");
    assert_eq!(a(2.0), "increase damage dealt by 2");
    assert!(matches!(DamageFactor { factor: f(2.0) }.serialize_into(), SerializedDamageEffect::MultiplyDamageEffect { .. }));
    assert!(matches!(DamageAddition { amount: f(2.0) }.serialize_into(), SerializedDamageEffect::AddDamageEffect { .. }));
}

#[test]
fn actor_effect_objects() {
    let status = StatusEffect { timeout: Some(f(2.0)), stat: Stat::Armor, modification: StatModification::Add { amount: f(1.0) } };
    let inflict = InflictStatusEffect::new(status);
    assert_eq!(render(&inflict.describe()), "Inflicts a status effect that Increases Armor by 1 (Adds 1 to Armor) for 2 seconds");
    let mut ctx = ActorEffectContext { world_access: world(), actor: actor_ref(4) };
    inflict.apply_effect(&mut ctx);
    assert_eq!(ctx.actor.context.status_effects.len(), 1);
    assert!(matches!(inflict.serialize_into(), SerializedActorEffect::InflictStatusEffect(_)));

    let heal = AffectHealthEffect { amount: f(3.0) };
    assert_eq!(render(&heal.describe()), "Inflict 3 damage (heal for -3)");
    assert_eq!(render(&AffectHealthEffect { amount: f(-3.0) }.describe()), "Inflict -3 damage");
    assert_eq!(render(&AffectHealthEffect { amount: f(0.0) }.describe()), "Does nothing");
    heal.apply_effect(&mut ctx);
    assert_eq!(ctx.world_access.damage_instances.len(), 1);
    assert_eq!(f32::from_bits(ctx.world_access.damage_instances[0].damage.bits), -3.0);

    let explosion = SpawnType::Explosion { radius: f(10.0), damage: f(2.0), knockback_strength: f(3.0) };
    let spawn = SpawnEffect { spawn_type: explosion, spawn_location: SpawnLocation::AtCaster };
    assert_eq!(render(&spawn.describe()), "Spawns an Explosion with 10 radius, 2 damage, and 3 knockback");
    spawn.apply_effect(&mut ctx);
    assert_eq!(ctx.world_access.spawn_requests.len(), 1);
    assert_eq!(ctx.world_access.spawn_requests[0].owner, Entity { bits: 4 });
}

#[test]
fn spawn_at_hit_object() {
    let missile = SpawnType::Missile { damage: f(1.0), speed: f(2.0), acceleration: f(3.0), knockback_strength: f(4.0) };
    let e = SpawnAtHitEffect { which_actor: DamageActor::Victim, spawn_type: missile };
    assert_eq!(render(&e.describe()), "Spawns a Missile (at the hit point) with speed: 2 u/s, acceleration: 3 u/s, damage: 1, and knockback strength: 4");
    assert_eq!(render(&e.describe_for_damage()), "Spawns a Missile (at the Victim) with speed: 2 u/s, acceleration: 3 u/s, damage: 1, and knockback strength: 4");
    let i = SpawnAtHitEffect { which_actor: DamageActor::Instigator, spawn_type: missile };
    assert_eq!(render(&i.describe_for_damage()), "Spawns a Missile (at the Instigator) with speed: 2 u/s, acceleration: 3 u/s, damage: 1, and knockback strength: 4");
    assert!(matches!(e.serialize_into_on_hit(), SerializedOnHitEffect::SpawnEffectAtHitLocation { .. }));
    assert!(matches!(e.serialize_into_damage(), SerializedDamageEffect::SpawnObjectAt { which_actor: DamageActor::Victim, .. }));

    let mut hit = ActorOnHitEffectContext { world_access: world(), instigator: actor_ref(1), victim: None, hit_location: Vec2 { x: f(5.0), y: f(6.0) } };
    e.apply_effect(&mut hit);
    assert_eq!(hit.world_access.spawn_requests.len(), 1);
    assert_eq!(f32::from_bits(hit.world_access.spawn_requests[0].location.x.bits), 5.0);

    let mut dmg = ActorDamageEffectContext { world_access: world(), instigator: actor_ref(1), victim: Some(actor_ref(2)) };
    let out = e.process_damage(&mut dmg, f(7.5));
    assert_eq!(f32::from_bits(out.bits), 7.5);
    assert_eq!(dmg.world_access.spawn_requests[0].owner, Entity { bits: 2 });
    let mut alone = ActorDamageEffectContext { world_access: world(), instigator: actor_ref(1), victim: None };
    e.process_damage(&mut alone, f(1.0));
    assert_eq!(alone.world_access.spawn_requests[0].owner, Entity { bits: 1 });
}
