use vstd::prelude::*;

use crate::components::EnemyTypes;

verus! {

/// A wave: which enemy it spawns and how many each time its spawn timer fires.
#[derive(Debug, Clone, Copy)]
pub struct Wave {
    pub enemy_type: EnemyTypes,
    pub amount_per_timer_trigger: u32,
}

/// The spawn requests a wave sends when its timer fires: its enemy, as many times as it spawns
/// per trigger.
pub fn waves_spawn(wave: &Wave) -> (requests: Vec<EnemyTypes>)
    ensures
        requests@.len() == wave.amount_per_timer_trigger,
        forall|i: int| 0 <= i < requests@.len() ==> #[trigger] requests@[i] == wave.enemy_type,
{
    let mut requests: Vec<EnemyTypes> = Vec::new();
    let mut k: u32 = 0;
    while k < wave.amount_per_timer_trigger
        invariant
            k <= wave.amount_per_timer_trigger,
            requests@.len() == k,
            forall|i: int| 0 <= i < requests@.len() ==> #[trigger] requests@[i] == wave.enemy_type,
        decreases wave.amount_per_timer_trigger - k,
    {
        requests.push(wave.enemy_type);
        k = k + 1;
    }
    requests
}

/// The entities of the waves a wave manager has started, so that they can be removed together.
pub struct WaveManager {
    pub waves_prefab: Vec<Wave>,
    pub waves: Vec<u64>,
}

impl WaveManager {
    /// Records the entities of waves just started.
    pub fn record_started_waves(&mut self, started: &Vec<u64>)
        ensures
            final(self).waves@ == old(self).waves@ + started@,
            final(self).waves_prefab@ == old(self).waves_prefab@,
    {
        let mut i: usize = 0;
        while i < started.len()
            invariant
                0 <= i <= started.len(),
                self.waves@ == old(self).waves@ + started@.take(i as int),
                self.waves_prefab@ == old(self).waves_prefab@,
            decreases started.len() - i,
        {
            self.waves.push(started[i]);
            i = i + 1;
            assert(self.waves@ =~= old(self).waves@ + started@.take(i as int));
        }
        assert(started@.take(i as int) =~= started@);
    }
}

/// The waves of the first map, grouped by wave manager: the first manager runs bats, golems
/// and rabbits, the second skulls and golems.
pub open spec fn spec_waves_map_1() -> Seq<Seq<Wave>> {
    seq![
        seq![
            Wave { enemy_type: EnemyTypes::Bat, amount_per_timer_trigger: 10 },
            Wave { enemy_type: EnemyTypes::Bat, amount_per_timer_trigger: 1 },
            Wave { enemy_type: EnemyTypes::Golem, amount_per_timer_trigger: 1 },
            Wave { enemy_type: EnemyTypes::Rabbit, amount_per_timer_trigger: 1 },
        ],
        seq![
            Wave { enemy_type: EnemyTypes::Skull, amount_per_timer_trigger: 10 },
            Wave { enemy_type: EnemyTypes::Golem, amount_per_timer_trigger: 1 },
        ],
    ]
}

/// The enemies and counts of the first map's waves (their timers are kept with the scheduler).
pub fn setup_waves_map_1() -> (r: Vec<Vec<Wave>>)
    ensures
        r@.len() == spec_waves_map_1().len(),
        forall|i: int| 0 <= i < r@.len() ==> #[trigger] r@[i]@ == spec_waves_map_1()[i],
{
    let first = vec![
        Wave { enemy_type: EnemyTypes::Bat, amount_per_timer_trigger: 10 },
        Wave { enemy_type: EnemyTypes::Bat, amount_per_timer_trigger: 1 },
        Wave { enemy_type: EnemyTypes::Golem, amount_per_timer_trigger: 1 },
        Wave { enemy_type: EnemyTypes::Rabbit, amount_per_timer_trigger: 1 },
    ];
    let second = vec![
        Wave { enemy_type: EnemyTypes::Skull, amount_per_timer_trigger: 10 },
        Wave { enemy_type: EnemyTypes::Golem, amount_per_timer_trigger: 1 },
    ];
    assert(first@ =~= spec_waves_map_1()[0]);
    assert(second@ =~= spec_waves_map_1()[1]);
    vec![first, second]
}

} // verus!
