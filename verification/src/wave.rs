use vstd::prelude::*;

use crate::common::Vec2;
use crate::float::{Float, spec_zero, zero};

verus! {

/// The kinds of enemy waves can spawn.
#[derive(Clone, Copy, Debug, PartialEq, Eq, Structural)]
pub enum EnemySpawnType {
    RegularEnemy,
}

/// 5.0, in single precision.
pub open spec fn spec_regular_enemy_points() -> Float {
    Float { bits: 0x40a0_0000 }
}

impl EnemySpawnType {
    /// The points it costs to spawn one enemy of this kind.
    pub fn points(&self) -> (r: Float)
        ensures r == spec_regular_enemy_points(),
    {
        match self {
            EnemySpawnType::RegularEnemy => Float::new(0x40a0_0000),
        }
    }
}

/// A group of enemies to spawn together.
#[derive(Clone, Copy, Debug)]
pub struct WaveSpawnType {
    pub target_count: u32,
    pub enemy_type: EnemySpawnType,
}

/// The current wave number.
#[derive(Clone, Copy, Debug)]
pub struct CurrentWave {
    pub wave: u32,
}

/// Sent to clients when the wave changes.
#[derive(Clone, Copy, Debug)]
pub struct NewWave {
    pub new_wave: u32,
}

/// The data waves are spawned and scaled from.
pub struct WaveData {
    pub base_point_amount: Float,
    pub point_growth_per_wave: Float,
    pub base_point_rate: Float,
    pub point_rate_growth_per_wave: Float,
    pub max_enemy_cost_threshold_growth_per_wave: Float,
    pub available_enemies: Vec<EnemySpawnType>,
}

/// Keeps the points that pay for spawning enemies and the next group to spawn.
#[derive(Clone, Copy, Debug)]
pub struct WaveOverseer {
    pub is_spawning: bool,
    pub points: Float,
    pub used_points: Float,
    pub next_spawn: WaveSpawnType,
}

/// An enemy and its speed.
#[derive(Clone, Copy, Debug)]
pub struct Enemy {
    pub speed: Float,
}

impl WaveOverseer {
    /// Not spawning, no points, and a single regular enemy to spawn next.
    pub fn new() -> (r: Self)
        ensures
            r == (WaveOverseer {
                is_spawning: false,
                points: spec_zero(),
                used_points: spec_zero(),
                next_spawn: WaveSpawnType { target_count: 1, enemy_type: EnemySpawnType::RegularEnemy },
            }),
    {
        Self {
            is_spawning: false,
            points: zero(),
            used_points: zero(),
            next_spawn: WaveSpawnType { target_count: 1, enemy_type: EnemySpawnType::RegularEnemy },
        }
    }

    /// Chooses the next group to spawn: as many regular enemies as 50 points
    /// buy at 5 points each, that is 10. The wave data and the point limit do
    /// not take part yet.
    pub fn tick_next_spawn(&mut self, _dat: &WaveData, _maximum_points: Float)
        ensures
            *final(self) == (WaveOverseer {
                next_spawn: WaveSpawnType { enemy_type: EnemySpawnType::RegularEnemy, target_count: 10 },
                ..*old(self)
            }),
    {
        let target_points: u32 = 50;
        let points_per_enemy: u32 = 5;
        self.next_spawn = WaveSpawnType { enemy_type: EnemySpawnType::RegularEnemy, target_count: target_points / points_per_enemy };
    }

    /// Clears the points and the points used.
    pub fn reset(&mut self)
        ensures
            *final(self) == (WaveOverseer { points: spec_zero(), used_points: spec_zero(), ..*old(self) }),
    {
        self.points = zero();
        self.used_points = zero();
    }
}


/// The spawn positions of a group of `count` enemies about `pos`: all of
/// them at `pos` itself for now.
pub fn vary_positions_about(pos: Vec2, count: u32) -> (r: Vec<Vec2>)
    ensures
        r@.len() == count,
        forall|i: int| 0 <= i < count ==> r@[i] == pos,
{
    let mut positions: Vec<Vec2> = Vec::new();
    let mut i: u32 = 0;
    while i < count
        invariant
            i <= count,
            positions@.len() == i,
            forall|j: int| 0 <= j < i ==> positions@[j] == pos,
        decreases count - i,
    {
        positions.push(pos);
        i = i + 1;
    }
    positions
}

} // verus!
