use vstd::prelude::*;

use crate::actor::Entity;
use crate::common::Vec2;
use crate::common::Knockback;
use crate::deaths::indices;
use crate::effect_application::{flat_map, lemma_flat_map_all, lemma_flat_map_take};
use crate::float::{Float, spec_zero, zero};

verus! {

/// Who the local player is.
#[derive(Clone, Copy, Debug)]
pub struct LocalPlayerId {
    pub is_host: bool,
    pub id: u64,
    pub entity: Entity,
}

impl LocalPlayerId {
    /// Clients predict what their abilities spawn; the host does not need to.
    pub fn should_predict(&self) -> (r: bool)
        ensures r == !self.is_host,
    {
        !self.is_host
    }
}

/// The state of one key this frame.
#[derive(Clone, Copy, Debug)]
pub struct KeyInput {
    pub pressed: bool,
    pub just_pressed: bool,
    pub just_released: bool,
}

/// When a class ability runs, by the state of its key.
#[derive(Clone, Copy, Debug)]
pub enum AbilityTrigger<K> {
    JustPressed(K),
    HeldDown(K),
    JustPressedOrReleased(K),
    JustReleased(K),
}

impl<K> AbilityTrigger<K> {
    pub open spec fn spec_key(&self) -> &K {
        match self {
            AbilityTrigger::JustPressed(k) => k,
            AbilityTrigger::HeldDown(k) => k,
            AbilityTrigger::JustPressedOrReleased(k) => k,
            AbilityTrigger::JustReleased(k) => k,
        }
    }

    /// The key the trigger watches.
    pub fn key(&self) -> (r: &K)
        ensures r == self.spec_key(),
    {
        match self {
            AbilityTrigger::JustPressed(k) => k,
            AbilityTrigger::HeldDown(k) => k,
            AbilityTrigger::JustPressedOrReleased(k) => k,
            AbilityTrigger::JustReleased(k) => k,
        }
    }

    pub open spec fn spec_fires(&self, input: KeyInput) -> bool {
        match self {
            AbilityTrigger::JustPressed(_) => input.just_pressed,
            AbilityTrigger::HeldDown(_) => input.pressed,
            AbilityTrigger::JustPressedOrReleased(_) => input.just_pressed || input.just_released,
            AbilityTrigger::JustReleased(_) => input.just_released,
        }
    }

    /// Whether the ability runs this frame, given the state of the trigger's key.
    pub fn fires(&self, input: &KeyInput) -> (r: bool)
        ensures r == self.spec_fires(*input),
    {
        match self {
            AbilityTrigger::JustPressed(_) => input.just_pressed,
            AbilityTrigger::HeldDown(_) => input.pressed,
            AbilityTrigger::JustPressedOrReleased(_) => input.just_pressed || input.just_released,
            AbilityTrigger::JustReleased(_) => input.just_released,
        }
    }
}

/// Which of the movement keys (D, A, W, S) are held.
#[derive(Clone, Copy, Debug)]
pub struct MovementKeys {
    pub right: bool,
    pub left: bool,
    pub up: bool,
    pub down: bool,
}

pub open spec fn axis(positive: bool, negative: bool) -> int {
    (if positive { 1int } else { 0int }) - (if negative { 1int } else { 0int })
}

/// The direction the held keys ask for, before normalisation, as steps of
/// -1, 0 or 1 along x and y; `None` when the keys cancel out or none is held,
/// in which case no movement is requested.
pub fn c_movement_input(keys: &MovementKeys) -> (r: Option<(i8, i8)>)
    ensures
        ({
            let x = axis(keys.right, keys.left);
            let y = axis(keys.up, keys.down);
            r == if x == 0 && y == 0 { None } else { Some((x as i8, y as i8)) }
        }),
{
    let mut x: i8 = 0;
    let mut y: i8 = 0;
    if keys.right {
        x = x + 1;
    }
    if keys.left {
        x = x - 1;
    }
    if keys.up {
        y = y + 1;
    }
    if keys.down {
        y = y - 1;
    }
    if x == 0 && y == 0 {
        None
    } else {
        Some((x, y))
    }
}

/// The ranged class's machine-gun state.
#[derive(Clone, Copy, Debug)]
pub struct RangedClassData {
    pub machine_gun_equipped: bool,
    pub fire_period_seconds: Float,
    pub last_fire_time_seconds: Float,
}

/// 0.1, in single precision.
pub open spec fn spec_default_fire_period() -> Float {
    Float { bits: 0x3dcc_cccd }
}

impl Default for RangedClassData {
    /// Machine gun not equipped, firing every 0.1 seconds, last fired at time 0.
    fn default() -> (r: Self)
        ensures
            r == (RangedClassData { machine_gun_equipped: false, fire_period_seconds: spec_default_fire_period(), last_fire_time_seconds: spec_zero() }),
    {
        Self { machine_gun_equipped: false, fire_period_seconds: Float::new(0x3dcc_cccd), last_fire_time_seconds: zero() }
    }
}

/// Requests from a ranged-class player.
#[derive(Clone, Copy, Debug)]
pub enum RangedClassEvent {
    BasicGunAttack { dir: Vec2, prespawned: Option<Entity> },
    BasicGrenadeAttack { dir: Vec2, prespawned: Option<Entity> },
    ShotgunBlast { dir: Vec2, prespawned: Option<[Entity; 5]> },
    EquipMachineGun,
    MachineGunBullet { dir: Vec2, prespawned: Option<Entity> },
    Boomerang { dir: Vec2, prespawned: Option<Entity> },
    Missiles { dir: Vec2, prespawned: Option<[Entity; 4]> },
}

/// The server's answer to a player's request to equip or unequip the
/// machine gun: the equipped state flips.
pub fn s_equipmachine_gun(class_data: &mut RangedClassData)
    ensures
        *final(class_data) == (RangedClassData { machine_gun_equipped: !old(class_data).machine_gun_equipped, ..*old(class_data) }),
{
    class_data.machine_gun_equipped = !class_data.machine_gun_equipped;
}

/// The local player asks to equip or unequip the machine gun. A client flips
/// its own state at once (the host's state is flipped by the server's answer).
pub fn c_equipmachine_gun_ability(data: &mut RangedClassData, local_player: &LocalPlayerId) -> (r: RangedClassEvent)
    ensures
        r is EquipMachineGun,
        !local_player.is_host ==> *final(data) == (RangedClassData { machine_gun_equipped: !old(data).machine_gun_equipped, ..*old(data) }),
        local_player.is_host ==> *final(data) == *old(data),
{
    if !local_player.is_host {
        data.machine_gun_equipped = !data.machine_gun_equipped;
    }
    RangedClassEvent::EquipMachineGun
}

/// Equipping twice, on a client and the server alike, leaves the machine gun as it was.
pub proof fn lemma_equip_twice(d: RangedClassData)
    ensures
        (RangedClassData { machine_gun_equipped: !(RangedClassData { machine_gun_equipped: !d.machine_gun_equipped, ..d }).machine_gun_equipped, ..d }) == d,
{
}


/// The abilities of the local player's class that run this frame: the
/// indices of the triggers that fire, in order. `inputs[i]` is the state of
/// the key of `triggers[i]`.
pub fn c_class_input_system<K>(triggers: &Vec<AbilityTrigger<K>>, inputs: &Vec<KeyInput>) -> (r: Vec<usize>)
    requires
        triggers@.len() == inputs@.len(),
    ensures
        forall|k: int| 0 <= k < r@.len() ==> r@[k] < triggers@.len() && triggers@[r@[k] as int].spec_fires(inputs@[r@[k] as int]),
        forall|k: int, l: int| 0 <= k < l < r@.len() ==> r@[k] < r@[l],
        forall|i: int| 0 <= i < triggers@.len() && #[trigger] triggers@[i].spec_fires(inputs@[i]) ==> r@.contains(i as usize),
{
    let mut r: Vec<usize> = Vec::new();
    let mut i: usize = 0;
    while i < triggers.len()
        invariant
            i <= triggers@.len(),
            triggers@.len() == inputs@.len(),
            forall|k: int| 0 <= k < r@.len() ==> r@[k] < i && triggers@[r@[k] as int].spec_fires(inputs@[r@[k] as int]),
            forall|k: int, l: int| 0 <= k < l < r@.len() ==> r@[k] < r@[l],
            forall|j: int| 0 <= j < i && #[trigger] triggers@[j].spec_fires(inputs@[j]) ==> r@.contains(j as usize),
        decreases triggers@.len() - i,
    {
        if triggers[i].fires(&inputs[i]) {
            let ghost r0 = r@;
            r.push(i);
            assert forall|j: int| 0 <= j < i + 1 && #[trigger] triggers@[j].spec_fires(inputs@[j]) implies r@.contains(j as usize) by {
                if j < i {
                    let k = choose|k: int| 0 <= k < r0.len() && r0[k] == j as usize;
                    assert(r@[k] == j as usize);
                } else {
                    assert(r@[r@.len() - 1] == j as usize);
                }
            }
        }
        i = i + 1;
    }
    r
}


/// An internet address, by its bits.
#[derive(Clone, Copy, Debug, PartialEq, Eq, Structural)]
pub enum IpAddress {
    V4(u32),
    V6(u128),
}

/// How the game is started: alone, as a server, or as a client of a server.
#[derive(Clone, Copy, Debug, PartialEq, Eq, Structural)]
pub enum Cli {
    SinglePlayer,
    Server { port: u16 },
    Client { ip: IpAddress, port: u16 },
}

/// The port a server listens on unless told otherwise.
pub const PORT: u16 = 5003;

/// The player id of the server.
pub const SERVER_ID: u64 = 0;

/// Who the local player is when the game starts in mode `cli`: the host,
/// with the server's id, when alone (then with the player entity spawned for
/// it) or as a server; else a client with the id it chose.
pub open spec fn spec_local_player_id(cli: Cli, client_id: u64, player_entity: Entity) -> LocalPlayerId {
    match cli {
        Cli::SinglePlayer => LocalPlayerId { is_host: true, id: SERVER_ID, entity: player_entity },
        Cli::Server { .. } => LocalPlayerId { is_host: true, id: SERVER_ID, entity: Entity::spec_placeholder() },
        Cli::Client { .. } => LocalPlayerId { is_host: false, id: client_id, entity: Entity::spec_placeholder() },
    }
}

/// Who the local player is when the game starts in mode `cli`; `client_id`
/// is the id a client chose, `player_entity` the player spawned when alone.
pub fn local_player_id(cli: &Cli, client_id: u64, player_entity: Entity) -> (r: LocalPlayerId)
    ensures
        r == spec_local_player_id(*cli, client_id, player_entity),
{
    match cli {
        Cli::SinglePlayer => LocalPlayerId { is_host: true, id: SERVER_ID, entity: player_entity },
        Cli::Server { .. } => LocalPlayerId { is_host: true, id: SERVER_ID, entity: Entity::placeholder() },
        Cli::Client { .. } => LocalPlayerId { is_host: false, id: client_id, entity: Entity::placeholder() },
    }
}

/// A connection event on the server.
#[derive(Clone, Copy, Debug, PartialEq, Eq, Structural)]
pub enum ServerEvent {
    ClientConnected { client_id: u64 },
    ClientDisconnected { client_id: u64 },
}

/// What the server does about a connection event.
#[derive(Clone, Copy, Debug, PartialEq, Eq, Structural)]
pub enum ConnectionResponse {
    /// Spawn a player for the client.
    SpawnPlayer { client_id: u64 },
    /// Despawn this player entity.
    Despawn(Entity),
    /// Nothing to do.
    Nothing,
}

/// What the server does about `event`, given its players (entity, client
/// id): a newly connected client gets a player; the first player of a client
/// that left is despawned.
pub open spec fn spec_connection_response(event: ServerEvent, players: Seq<(Entity, u64)>) -> ConnectionResponse {
    match event {
        ServerEvent::ClientConnected { client_id } => ConnectionResponse::SpawnPlayer { client_id },
        ServerEvent::ClientDisconnected { client_id } => match first_player_of(players, client_id) {
            Some(entity) => ConnectionResponse::Despawn(entity),
            None => ConnectionResponse::Nothing,
        },
    }
}

/// The entity of the first of `players` (entity, client id) that belongs to `client_id`.
pub open spec fn first_player_of(players: Seq<(Entity, u64)>, client_id: u64) -> Option<Entity>
    decreases players.len(),
{
    if players.len() == 0 {
        None
    } else if players[0].1 == client_id {
        Some(players[0].0)
    } else {
        first_player_of(players.drop_first(), client_id)
    }
}

/// Finds the first of `players` (entity, client id) that belongs to `client_id`.
pub fn find_player_of_client(players: &Vec<(Entity, u64)>, client_id: u64) -> (r: Option<usize>)
    ensures
        r matches Some(i) ==> i < players@.len() && players@[i as int].1 == client_id
            && first_player_of(players@, client_id) == Some(players@[i as int].0),
        r is None ==> first_player_of(players@, client_id) is None,
{
    let mut i: usize = 0;
    assert(players@.skip(0) =~= players@);
    while i < players.len()
        invariant
            i <= players@.len(),
            first_player_of(players@, client_id) == first_player_of(players@.skip(i as int), client_id),
        decreases players@.len() - i,
    {
        assert(players@.skip(i as int)[0] == players@[i as int]);
        assert(players@.skip(i as int).len() > 0);
        if players[i].1 == client_id {
            return Some(i);
        }
        assert(players@.skip(i as int).drop_first() =~= players@.skip(i + 1));
        i = i + 1;
    }
    assert(players@.skip(i as int).len() == 0);
    None
}

/// Decides what the server does about a connection event.
pub fn s_conn_events(event: ServerEvent, players: &Vec<(Entity, u64)>) -> (r: ConnectionResponse)
    ensures
        r == spec_connection_response(event, players@),
{
    match event {
        ServerEvent::ClientConnected { client_id } => ConnectionResponse::SpawnPlayer { client_id },
        ServerEvent::ClientDisconnected { client_id } => match find_player_of_client(players, client_id) {
            Some(i) => ConnectionResponse::Despawn(players[i].0),
            None => ConnectionResponse::Nothing,
        },
    }
}

/// Which player casts a default-class ability that `client_id` asked for:
/// none for the server's own requests (the host casts directly), else the
/// client's first player.
pub fn s_default_class_ability_response(client_id: u64, players: &Vec<(Entity, u64)>) -> (r: Option<usize>)
    ensures
        client_id == SERVER_ID ==> r is None,
        client_id != SERVER_ID ==> match r {
            Some(i) => i < players@.len() && players@[i as int].1 == client_id
                && first_player_of(players@, client_id) == Some(players@[i as int].0),
            None => first_player_of(players@, client_id) is None,
        },
{
    if client_id == SERVER_ID {
        return None;
    }
    find_player_of_client(players, client_id)
}


/// The player at a given index, if a move request from `client_id` moves
/// it: it is that client's and is not being knocked back.
pub open spec fn moved_player_fn(client_id: u64, players: Seq<(u64, Knockback)>) -> spec_fn(int) -> Seq<int> {
    |i: int|
        if players[i].0 == client_id
            && !(spec_zero().spec_lt(players[i].1.time_remaining) && spec_zero().spec_lt(players[i].1.total_time)) {
            seq![i]
        } else {
            Seq::empty()
        }
}

/// The players (client id, knockback) that a move request from `client_id`
/// moves, by index in order: those of that client not being knocked back.
pub fn s_movement_events(client_id: u64, players: &Vec<(u64, Knockback)>) -> (r: Vec<usize>)
    ensures
        r@.map_values(|i: usize| i as int) == flat_map(indices(players@.len()), moved_player_fn(client_id, players@)),
{
    let ghost f = moved_player_fn(client_id, players@);
    let ghost ix = indices(players@.len());
    let mut r: Vec<usize> = Vec::new();
    let mut i: usize = 0;
    assert(ix.take(0) =~= Seq::<int>::empty());
    assert(r@.map_values(|i: usize| i as int) =~= flat_map(ix.take(0), f));
    while i < players.len()
        invariant
            i <= players@.len(),
            ix == indices(players@.len()),
            f == moved_player_fn(client_id, players@),
            r@.map_values(|i: usize| i as int) == flat_map(ix.take(i as int), f),
        decreases players@.len() - i,
    {
        proof {
            lemma_flat_map_take(ix, f, i as int);
            assert(ix[i as int] == i as int);
        }
        let ghost before = r@;
        if players[i].0 == client_id && !players[i].1.has_knockback() {
            r.push(i);
            assert(r@.map_values(|i: usize| i as int) =~= before.map_values(|i: usize| i as int) + seq![i as int]);
        } else {
            assert(r@.map_values(|i: usize| i as int) =~= before.map_values(|i: usize| i as int) + Seq::<int>::empty());
        }
        i = i + 1;
    }
    proof { lemma_flat_map_all(ix, f); }
    r
}


/// Which key states run an ability: a just-pressed trigger exactly on the
/// frame its key goes down (not on the frame it is let go), a held-down one
/// on every frame the key is down, a just-released one on the frame it is
/// let go, and a pressed-or-released one on either of those frames.
pub proof fn lemma_trigger_firing<K>(key: K, input: KeyInput)
    ensures
        AbilityTrigger::JustPressed(key).spec_fires(input) == input.just_pressed,
        AbilityTrigger::HeldDown(key).spec_fires(input) == input.pressed,
        AbilityTrigger::JustReleased(key).spec_fires(input) == input.just_released,
        AbilityTrigger::JustPressedOrReleased(key).spec_fires(input)
            == (AbilityTrigger::JustPressed(key).spec_fires(input) || AbilityTrigger::JustReleased(key).spec_fires(input)),
        AbilityTrigger::JustPressed(key).spec_key() == key,
{
}

} // verus!
