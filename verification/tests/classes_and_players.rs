use simple_game::actor::{ActorContext, DamageSource, Entity};
use simple_game::classes::{
    class_abilities, setup_classes, KeyCode, c_class_change, change_class, s_setup_initial_class, swap_class, ActorClass, ClassBaseData, ClassEntry, ClassHook,
    ClassType, Classes, GeneralClientEvents,
};
use simple_game::common::{default_control_points, DestroyIfNoMatchWithin, Knockback, Vec2};
use simple_game::damage::{Damage, DamageKnockback};
use simple_game::effect::{SerializedDamageChangeEffect, SerializedEffectTrigger};
use simple_game::float::Float;
use simple_game::player::{
    c_class_input_system, c_equipmachine_gun_ability, c_movement_input, local_player_id, s_conn_events,
    s_default_class_ability_response, s_equipmachine_gun, s_movement_events,
    AbilityTrigger, Cli, ConnectionResponse, IpAddress, KeyInput, LocalPlayerId, MovementKeys, RangedClassData, RangedClassEvent,
    ServerEvent, SERVER_ID,
};
use simple_game::stats::{SerializedStat, Stat, StatModification, StatusEffect};
use simple_game::wave::{vary_positions_about, EnemySpawnType, WaveData, WaveOverseer};

fn f(x: f32) -> Float {
    Float::new(x.to_bits())
}

fn base(name: &str, health: f32, with_effect: bool) -> ClassBaseData {
    ClassBaseData {
        effects: if with_effect {
            vec![SerializedEffectTrigger::OnDoDamage(SerializedDamageChangeEffect::MultiplyDamageEffect { factor: f(2.5) })]
        } else {
            vec![]
        },
        stats: vec![SerializedStat { stat: Stat::Health, value: f(1.0) }, SerializedStat { stat: Stat::Health, value: f(health) }],
        description: String::from("Test Stuff"),
        name: String::from(name),
    }
}

fn classes() -> Classes {
    Classes {
        classes: vec![
            ClassEntry { class_type: ClassType::DefaultClass, has_setup: false, has_teardown: false, base_data: base("Default", 100.0, false) },
            ClassEntry { class_type: ClassType::MeleeClass, has_setup: false, has_teardown: false, base_data: base("Melee", 150.0, true) },
            ClassEntry { class_type: ClassType::RangedClass, has_setup: true, has_teardown: true, base_data: base("Ranged", 80.0, true) },
        ],
    }
}

#[test]
fn into_actor() {
    let a = base("Test Class", 100.0, true).into_actor();
    assert_eq!(a.effects.len(), 1);
    assert_eq!(a.status_effects.len(), 0);
    // The later entry for a stat wins.
    assert_eq!(a.get_stat(&Stat::Health).map(|v| f32::from_bits(v.bits)), Some(100.0));
    assert_eq!(a.last_damage_source, None);
}

#[test]
fn change_and_swap_classes() {
    let cs = classes();
    let mut class = ActorClass::new(ClassType::DefaultClass);
    let mut actor = ActorContext::default();
    actor.status_effects.push(StatusEffect { timeout: None, stat: Stat::Armor, modification: StatModification::Add { amount: f(1.0) } });
    actor.last_damage_source = Some(DamageSource::Other);
    let mut hooks = Vec::new();

    change_class(&mut class, &mut hooks, &cs, &mut actor, ClassType::RangedClass);
    assert_eq!(class.get_class(), ClassType::RangedClass);
    assert_eq!(hooks, vec![ClassHook::Setup(ClassType::RangedClass)]);
    assert_eq!(actor.get_stat(&Stat::Health).map(|v| f32::from_bits(v.bits)), Some(80.0));
    assert_eq!(actor.effects.len(), 1);
    // Status effects and the damage source survive a class change.
    assert_eq!(actor.status_effects.len(), 1);
    assert_eq!(actor.last_damage_source, Some(DamageSource::Other));

    hooks.clear();
    swap_class(&mut class, &mut hooks, &cs, &mut actor);
    assert_eq!(class.get_class(), ClassType::DefaultClass);
    assert_eq!(hooks, vec![ClassHook::Teardown(ClassType::RangedClass)]);
    assert_eq!(actor.effects.len(), 0);
    assert_eq!(actor.get_stat(&Stat::Health).map(|v| f32::from_bits(v.bits)), Some(100.0));

    hooks.clear();
    swap_class(&mut class, &mut hooks, &cs, &mut actor);
    assert_eq!(class.get_class(), ClassType::MeleeClass);
    assert_eq!(hooks, vec![]);
}

#[test]
fn unknown_class_changes_nothing_but_tears_down() {
    let cs = Classes { classes: vec![ClassEntry { class_type: ClassType::RangedClass, has_setup: true, has_teardown: true, base_data: base("Ranged", 80.0, true) }] };
    let mut class = ActorClass::new(ClassType::RangedClass);
    let mut actor = ActorContext::default();
    actor.set_stat(Stat::Armor, f(3.0));
    let mut hooks = Vec::new();
    class.set_class(&mut hooks, &cs, &mut actor, ClassType::MeleeClass);
    assert_eq!(class.get_class(), ClassType::RangedClass);
    assert_eq!(hooks, vec![ClassHook::Teardown(ClassType::RangedClass)]);
    assert_eq!(actor.get_stat(&Stat::Armor).map(|v| f32::from_bits(v.bits)), Some(3.0));
}

#[test]
fn initial_class_setup_has_no_teardown() {
    let cs = classes();
    let mut class = ActorClass::new(ClassType::RangedClass);
    let mut actor = ActorContext::default();
    let mut hooks = Vec::new();
    s_setup_initial_class(&mut class, &mut hooks, &cs, &mut actor);
    assert_eq!(hooks, vec![ClassHook::Setup(ClassType::RangedClass)]);
    assert_eq!(actor.get_stat(&Stat::Health).map(|v| f32::from_bits(v.bits)), Some(80.0));
}

#[test]
fn class_cycle() {
    assert_eq!(ClassType::all_class_types(), [ClassType::DefaultClass, ClassType::MeleeClass, ClassType::RangedClass]);
    assert_eq!(c_class_change(true, Some(ClassType::DefaultClass)), Some(GeneralClientEvents::ChangeClass(ClassType::MeleeClass)));
    assert_eq!(c_class_change(true, Some(ClassType::MeleeClass)), Some(GeneralClientEvents::ChangeClass(ClassType::RangedClass)));
    assert_eq!(c_class_change(true, Some(ClassType::RangedClass)), Some(GeneralClientEvents::ChangeClass(ClassType::DefaultClass)));
    assert_eq!(c_class_change(false, Some(ClassType::RangedClass)), None);
    assert_eq!(c_class_change(true, None), None);
    let mut c = ClassType::MeleeClass;
    for _ in 0..3 {
        match c_class_change(true, Some(c)) {
            Some(GeneralClientEvents::ChangeClass(n)) => c = n,
            _ => panic!("the cycle always has a next class"),
        }
    }
    assert_eq!(c, ClassType::MeleeClass);
    assert_eq!(ClassType::DefaultClass.name(), "Default");
    assert_eq!(ClassType::MeleeClass.name(), "Melee");
    assert_eq!(ClassType::RangedClass.name(), "Ranged");
}

#[test]
fn damage_kinds() {
    let d = Damage::new_typical_bullet(f(5.0));
    assert!(d.destroy_on_damage && d.deal_damage_once && !d.did_damage && d.knockback.is_none());
    assert!(d.should_destroy());
    let d = Damage::new_typical_explosion(f(5.0));
    assert!(!d.destroy_on_damage && !d.deal_damage_once);
    let d = Damage::new_typical_laser(f(5.0));
    assert!(!d.destroy_on_damage && !d.deal_damage_once);
    let d = Damage::new_typical_hitscan(f(5.0));
    assert!(!d.destroy_on_damage && d.deal_damage_once);
    let mut d = Damage::new(f(1.0), false, false, None);
    d.with_destroy_on_damage(true).with_knockback(Some(DamageKnockback::RepulsionFromSelf { strength: f(100.0) }));
    assert!(d.should_destroy());
    assert!(d.knockback.is_some());
}

#[test]
fn knockback_timing() {
    let k = Knockback::default();
    assert!(!k.has_knockback());
    let k = Knockback::new(Vec2 { x: f(1.0), y: f(0.0) }, f(0.5), default_control_points());
    assert!(k.has_knockback());
    assert_eq!(k.control_points.map(|p| f32::from_bits(p.bits)), [1.0, 1.0, 1.0]);
    let k = Knockback { time_remaining: f(0.0), ..k };
    assert!(!k.has_knockback());
    let k = Knockback { time_remaining: f(f32::NAN), ..k };
    assert!(!k.has_knockback());
    assert_eq!(f32::from_bits(DestroyIfNoMatchWithin::default().remaining_time.bits), 0.15);
}

#[test]
fn waves() {
    let mut w = WaveOverseer::new();
    assert!(!w.is_spawning);
    assert_eq!(w.next_spawn.target_count, 1);
    assert_eq!(f32::from_bits(EnemySpawnType::RegularEnemy.points().bits), 5.0);
    let data = WaveData {
        base_point_amount: f(400.0),
        point_growth_per_wave: f(150.0),
        base_point_rate: f(40.0),
        point_rate_growth_per_wave: f(15.0),
        max_enemy_cost_threshold_growth_per_wave: f(10.0),
        available_enemies: vec![],
    };
    w.tick_next_spawn(&data, f(100.0));
    assert_eq!(w.next_spawn.target_count, 10);
    assert_eq!(w.next_spawn.target_count as f32, (50.0f32 / 5.0f32).floor());
    w.points = f(12.0);
    w.used_points = f(3.0);
    w.reset();
    assert_eq!(w.points.bits, 0);
    assert_eq!(w.used_points.bits, 0);
    let p = Vec2 { x: f(3.0), y: f(4.0) };
    let ps = vary_positions_about(p, 3);
    assert_eq!(ps.len(), 3);
    assert!(ps.iter().all(|q| q.x.bits == p.x.bits && q.y.bits == p.y.bits));
    assert!(vary_positions_about(p, 0).is_empty());
}

#[test]
fn player_input() {
    let keys = |right, left, up, down| MovementKeys { right, left, up, down };
    assert_eq!(c_movement_input(&keys(false, false, false, false)), None);
    assert_eq!(c_movement_input(&keys(true, true, false, false)), None);
    assert_eq!(c_movement_input(&keys(true, false, false, false)), Some((1, 0)));
    assert_eq!(c_movement_input(&keys(false, true, true, false)), Some((-1, 1)));
    assert_eq!(c_movement_input(&keys(false, false, false, true)), Some((0, -1)));

    let input = |pressed, just_pressed, just_released| KeyInput { pressed, just_pressed, just_released };
    assert!(AbilityTrigger::JustPressed('a').fires(&input(true, true, false)));
    assert!(!AbilityTrigger::JustPressed('a').fires(&input(true, false, false)));
    assert!(AbilityTrigger::HeldDown('a').fires(&input(true, false, false)));
    assert!(AbilityTrigger::JustPressedOrReleased('a').fires(&input(false, false, true)));
    assert!(AbilityTrigger::JustReleased('a').fires(&input(false, false, true)));
    assert!(!AbilityTrigger::JustReleased('a').fires(&input(true, true, false)));
    assert_eq!(*AbilityTrigger::HeldDown('q').key(), 'q');
    let triggers = vec![AbilityTrigger::JustPressed(' '), AbilityTrigger::HeldDown(' '), AbilityTrigger::JustReleased('e')];
    let inputs = vec![input(true, false, false), input(true, false, false), input(false, false, true)];
    assert_eq!(c_class_input_system(&triggers, &inputs), vec![1, 2]);

    let host = LocalPlayerId { is_host: true, id: 0, entity: Entity { bits: 0 } };
    let client = LocalPlayerId { is_host: false, id: 5, entity: Entity { bits: 9 } };
    assert!(!host.should_predict());
    assert!(client.should_predict());
}

#[test]
fn machine_gun_toggle() {
    let mut d = RangedClassData::default();
    assert!(!d.machine_gun_equipped);
    assert_eq!(f32::from_bits(d.fire_period_seconds.bits), 0.1);
    let client = LocalPlayerId { is_host: false, id: 5, entity: Entity { bits: 9 } };
    let host = LocalPlayerId { is_host: true, id: 0, entity: Entity { bits: 0 } };
    assert!(matches!(c_equipmachine_gun_ability(&mut d, &client), RangedClassEvent::EquipMachineGun));
    assert!(d.machine_gun_equipped);
    c_equipmachine_gun_ability(&mut d, &host);
    assert!(d.machine_gun_equipped);
    s_equipmachine_gun(&mut d);
    assert!(!d.machine_gun_equipped);
}

#[test]
fn local_player_by_start_mode() {
    let player = Entity { bits: 42 };
    let alone = local_player_id(&Cli::SinglePlayer, 7, player);
    assert!(alone.is_host && alone.id == SERVER_ID && alone.entity == player);
    let server = local_player_id(&Cli::Server { port: 5003 }, 7, player);
    assert!(server.is_host && server.id == SERVER_ID && server.entity == Entity::placeholder());
    let client = local_player_id(&Cli::Client { ip: IpAddress::V4(0x7f00_0001), port: 5003 }, 7, player);
    assert!(!client.is_host && client.id == 7 && client.entity == Entity::placeholder());
    assert!(client.should_predict() && !server.should_predict());
}

#[test]
fn connection_events() {
    let players = vec![(Entity { bits: 1 }, 10), (Entity { bits: 2 }, 20), (Entity { bits: 3 }, 20)];
    assert_eq!(s_conn_events(ServerEvent::ClientConnected { client_id: 30 }, &players), ConnectionResponse::SpawnPlayer { client_id: 30 });
    assert_eq!(s_conn_events(ServerEvent::ClientDisconnected { client_id: 20 }, &players), ConnectionResponse::Despawn(Entity { bits: 2 }));
    assert_eq!(s_conn_events(ServerEvent::ClientDisconnected { client_id: 99 }, &players), ConnectionResponse::Nothing);
}

#[test]
fn class_ability_tables() {
    let names = |c: ClassType| class_abilities(c).iter().map(|(_, n)| n.to_string()).collect::<Vec<String>>();
    assert_eq!(names(ClassType::DefaultClass), vec!["Melee attack", "Gun attack"]);
    assert_eq!(names(ClassType::MeleeClass).len(), 5);
    let ranged = class_abilities(ClassType::RangedClass);
    assert_eq!(ranged.len(), 6);
    assert!(matches!(ranged[1].0, AbilityTrigger::HeldDown(KeyCode::Space)));
    assert_eq!(ranged[1].1, "Machine gun fire");
    assert!(matches!(ranged[5].0, AbilityTrigger::JustPressed(KeyCode::KeyF)));
}

#[test]
fn default_class_abilities_are_cast_by_the_clients_player() {
    let players = vec![(Entity { bits: 1 }, 0), (Entity { bits: 2 }, 20), (Entity { bits: 3 }, 20)];
    assert_eq!(s_default_class_ability_response(SERVER_ID, &players), None);
    assert_eq!(s_default_class_ability_response(20, &players), Some(1));
    assert_eq!(s_default_class_ability_response(21, &players), None);
}

#[test]
fn only_the_clients_players_free_of_knockback_move() {
    let still = Knockback::new(Vec2 { x: f(0.0), y: f(0.0) }, f(0.0), default_control_points());
    let pushed = Knockback::new(Vec2 { x: f(1.0), y: f(0.0) }, f(0.5), default_control_points());
    let players = vec![(5, still), (6, still), (5, pushed), (5, still)];
    assert_eq!(s_movement_events(5, &players), vec![0, 3]);
    assert!(s_movement_events(7, &players).is_empty());
}

#[test]
fn the_class_registry() {
    let data = |name: &str| ClassBaseData { effects: vec![], stats: vec![], description: String::new(), name: name.to_string() };
    let classes = setup_classes(data("Default"), data("Melee"), data("Ranged"));
    let kinds: Vec<(ClassType, bool, bool, String)> =
        classes.classes.iter().map(|c| (c.class_type, c.has_setup, c.has_teardown, c.base_data.name.clone())).collect();
    assert_eq!(
        kinds,
        vec![
            (ClassType::DefaultClass, false, false, "Default".to_string()),
            (ClassType::MeleeClass, false, false, "Melee".to_string()),
            (ClassType::RangedClass, true, true, "Ranged".to_string()),
        ]
    );
}
