use simple_game::actor::{ActorChild, ActorContext, Entity};
use simple_game::collision::{find_collisions, s_collision_projectiles_damage, Damageable, Projectile};
use simple_game::common::{Position, Vec2};
use simple_game::damage::Damage;
use simple_game::effect::{ChildType, SerializedActorEffect, SerializedEffectTrigger, SerializedOnHitEffect, SpawnType};
use simple_game::effect_application::{ActorReference, EffectContextWorldAccess};
use simple_game::float::Float;
use simple_game::stats::{Stat, StatModification, StatusEffect};

fn f(x: f32) -> Float {
    Float::new(x.to_bits())
}

fn e(id: u64) -> Entity {
    Entity { bits: id }
}

fn projectile(id: u64, owner: u64, damage: Damage) -> Projectile {
    Projectile {
        entity: e(id),
        damage,
        position: Vec2 { x: f(3.0), y: f(4.0) },
        child: ActorChild { parent_actor: e(owner), ability_type: ChildType::Projectile },
    }
}

fn damageable(remaining: f32, duration: f32) -> Damageable {
    Damageable { invulnerability_remaining: f(remaining), invulnerability_duration: f(duration) }
}

fn actor(id: u64, effects: Vec<SerializedEffectTrigger>) -> ActorReference {
    let mut context = ActorContext::default();
    context.effects = effects;
    ActorReference { entity: e(id), context, location: Position(Vec2 { x: f(0.0), y: f(0.0) }) }
}

fn world() -> EffectContextWorldAccess {
    EffectContextWorldAccess { spawn_requests: Vec::new(), damage_instances: Vec::new() }
}

#[test]
fn a_bullet_hits_only_the_first_target_it_can() {
    let mut projectiles = vec![projectile(100, 1, Damage::new_typical_bullet(f(10.0)))];
    let mut targets = vec![damageable(0.2, 0.5), damageable(0.0, 0.5), damageable(0.0, 0.5)];
    let touching = vec![vec![true, true, true]];
    let (hits, destroyed) = find_collisions(&mut projectiles, &mut targets, &touching);
    assert_eq!(hits, vec![(0, 1)]);
    // A bullet is destroyed by its hit.
    assert_eq!(destroyed, vec![e(100)]);
    assert!(projectiles[0].damage.did_damage);
    assert_eq!(targets[1].invulnerability_remaining.bits, 0.5f32.to_bits());
    assert_eq!(targets[2].invulnerability_remaining.bits, 0.0f32.to_bits());
}

#[test]
fn an_explosion_hits_everything_it_touches() {
    let mut projectiles = vec![
        projectile(100, 1, Damage::new_typical_explosion(f(10.0))),
        projectile(101, 1, Damage::new_typical_explosion(f(10.0))),
    ];
    // A NaN invulnerability is not above zero, so that target can be hit.
    let mut targets = vec![damageable(0.0, 0.5), damageable(f32::NAN, 0.0), damageable(0.0, 0.5)];
    let touching = vec![vec![true, true, false], vec![true, true, true]];
    let (hits, destroyed) = find_collisions(&mut projectiles, &mut targets, &touching);
    // The second explosion finds the first target invulnerable now, but the
    // second has no invulnerability to speak of.
    assert_eq!(hits, vec![(0, 0), (0, 1), (1, 1), (1, 2)]);
    // Explosions outlast their hits.
    assert!(destroyed.is_empty());
    assert!(projectiles[0].damage.did_damage && projectiles[1].damage.did_damage);
}

#[test]
fn a_spent_bullet_hits_nothing() {
    let mut bullet = Damage::new_typical_bullet(f(10.0));
    bullet.did_damage = true;
    let mut projectiles = vec![projectile(100, 1, bullet), projectile(101, 1, Damage::new_typical_hitscan(f(1.0)))];
    let mut targets = vec![damageable(0.0, 0.5)];
    let touching = vec![vec![true], vec![false]];
    let (hits, destroyed) = find_collisions(&mut projectiles, &mut targets, &touching);
    assert!(hits.is_empty());
    assert!(destroyed.is_empty());
    assert!(!projectiles[1].damage.did_damage);
}

#[test]
fn hits_deal_damage_and_fire_on_hit_effects() {
    let status = StatusEffect { timeout: None, modification: StatModification::Add { amount: f(1.0) }, stat: Stat::Armor };
    let on_hit = SerializedEffectTrigger::OnAbilityHit {
        ability_type: ChildType::Projectile,
        effect: SerializedOnHitEffect::RegularEffect { effect: SerializedActorEffect::InflictStatusEffect(status) },
    };
    let spawn_at_hit = SerializedEffectTrigger::OnAbilityHit {
        ability_type: ChildType::Projectile,
        effect: SerializedOnHitEffect::SpawnEffectAtHitLocation {
            spawn_type: SpawnType::Explosion { radius: f(1.0), damage: f(2.0), knockback_strength: f(0.0) },
        },
    };
    let mut projectiles = vec![
        projectile(100, 1, Damage::new_typical_bullet(f(10.0))),
        projectile(101, 7, Damage::new_typical_bullet(f(4.0))),
        projectile(102, 99, Damage::new_typical_bullet(f(4.0))),
    ];
    let mut damageables = vec![damageable(0.0, 0.5), damageable(0.0, 0.0)];
    let mut targets = vec![actor(1, vec![on_hit]), actor(2, vec![])];
    let mut others = vec![actor(7, vec![spawn_at_hit])];
    let touching = vec![vec![false, true], vec![false, true], vec![true, false]];
    let (hits, destroyed, events, world) =
        s_collision_projectiles_damage(&mut projectiles, &mut damageables, &mut targets, &mut others, &touching, world());
    assert_eq!(hits, vec![(0, 1), (1, 1), (2, 0)]);
    assert_eq!(destroyed, vec![e(100), e(101), e(102)]);
    let dealt: Vec<(u64, u64, u32)> = events.iter().map(|d| (d.instigator.bits, d.victim.bits, d.damage.bits)).collect();
    assert_eq!(dealt, vec![(1, 2, 10.0f32.to_bits()), (7, 2, 4.0f32.to_bits()), (99, 1, 4.0f32.to_bits())]);
    // Actor 1 owns the first bullet; actor 7, without invulnerability, the second.
    assert_eq!(targets[0].context.status_effects.len(), 1);
    assert!(targets[1].context.status_effects.is_empty());
    assert_eq!(world.spawn_requests.len(), 1);
    assert_eq!(world.spawn_requests[0].owner, e(7));
    assert_eq!(world.spawn_requests[0].location.x.bits, 3.0f32.to_bits());
    assert!(world.damage_instances.is_empty());
}
