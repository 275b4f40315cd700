use vstd::prelude::*;

use crate::components::{contains_entity, AttackAmmo, PlayerUpgradeWeapons, WeaponsUpgradesTypes};

verus! {

/// The extra attacks the chain lightning's extra-ammo upgrade adds.
pub const CHAIN_LIGHTNING_EXTRA_AMMO: u32 = 5;

/// One volley of chain lightning: how many chains start from the player and how many enemies
/// each chain may jump to.
pub struct ChainLightningVolley {
    pub chains: u32,
    pub jumps_per_chain: u32,
}

/// Fires the whole load: three chains with the triple upgrade, one without, each able to jump
/// as many times as there are attacks left; the load is then empty.
pub fn spawn_chain_lightning_attack(ammo: &mut AttackAmmo, upgrades: &PlayerUpgradeWeapons) -> (r:
    ChainLightningVolley)
    ensures
        r.chains == (if upgrades.upgrades@.contains(WeaponsUpgradesTypes::ChainLightningTriple) {
            3u32
        } else {
            1u32
        }),
        r.jumps_per_chain == old(ammo).amount,
        final(ammo).amount == 0,
        final(ammo).capacity == old(ammo).capacity,
        final(ammo).initial_capacity == old(ammo).initial_capacity,
{
    let chains: u32 = if upgrades.has(WeaponsUpgradesTypes::ChainLightningTriple) {
        3
    } else {
        1
    };
    let jumps_per_chain = ammo.amount;
    ammo.amount = 0;
    ChainLightningVolley { chains, jumps_per_chain }
}

/// The chain lightning's extra-ammo upgrade: five more attacks per load.
pub fn handle_chain_lightning_extra_ammo_update(ammo: &mut AttackAmmo)
    requires
        old(ammo).capacity + CHAIN_LIGHTNING_EXTRA_AMMO <= u32::MAX,
        old(ammo).initial_capacity + CHAIN_LIGHTNING_EXTRA_AMMO <= u32::MAX,
    ensures
        final(ammo).capacity == old(ammo).capacity + CHAIN_LIGHTNING_EXTRA_AMMO,
        final(ammo).initial_capacity == old(ammo).initial_capacity + CHAIN_LIGHTNING_EXTRA_AMMO,
        final(ammo).amount == old(ammo).amount,
{
    ammo.add_capacity(CHAIN_LIGHTNING_EXTRA_AMMO);
}

/// Where a lightning bolt starts: the player, or the enemy the chain struck last.
#[derive(Debug, Clone, Copy, PartialEq, Eq, Structural)]
pub enum StrikeOrigin {
    Player,
    Enemy(u64),
}

/// One jump of a chain: where the bolt starts, what `find_closest` answered there, and the
/// enemy it struck (none when the answer was none, or an enemy struck before in the volley).
#[derive(Debug, Clone, Copy, PartialEq, Eq)]
pub struct ChainJump {
    pub from: StrikeOrigin,
    pub answer: Option<u64>,
    pub struck: Option<u64>,
}

/// The enemies struck by a run of jumps, in order.
pub open spec fn struck_so_far(jumps: Seq<ChainJump>) -> Seq<u64>
    decreases jumps.len(),
{
    if jumps.len() == 0 {
        Seq::empty()
    } else {
        let before = struck_so_far(jumps.drop_last());
        match jumps.last().struck {
            Some(e) => before.push(e),
            None => before,
        }
    }
}

/// Where a chain stands after `jump`: on the enemy it struck, or still where it started.
pub open spec fn after_jump(jump: ChainJump) -> StrikeOrigin {
    match jump.struck {
        Some(e) => StrikeOrigin::Enemy(e),
        None => jump.from,
    }
}

/// Where jump `k` of a volley starts when every chain has `per_chain` jumps: the first jump of
/// a chain starts at the player, any other where the chain stands after the jump before it.
pub open spec fn jump_origin(jumps: Seq<ChainJump>, k: int, per_chain: int) -> StrikeOrigin {
    if k % per_chain == 0 {
        StrikeOrigin::Player
    } else {
        after_jump(jumps[k - 1])
    }
}

/// What a jump strikes when the finder answered `answer` and `before` were struck already.
pub open spec fn strike_of(answer: Option<u64>, before: Seq<u64>) -> Option<u64> {
    match answer {
        Some(e) => if before.contains(e) {
            None
        } else {
            Some(e)
        },
        None => None,
    }
}

/// `answer` is an answer of `find_closest`, asked from `from` with the enemies `before`.
pub open spec fn finder_answered<F: Fn(StrikeOrigin, &Vec<u64>) -> Option<u64>>(
    find_closest: F,
    from: StrikeOrigin,
    before: Seq<u64>,
    answer: Option<u64>,
) -> bool {
    exists|v: Vec<u64>| v@ == before && #[trigger] call_ensures(find_closest, (from, &v), answer)
}

/// Jump `k` of `jumps` is one the volley makes: it starts where its chain stands, its answer is
/// the finder's, asked from there with the enemies struck before it, and it strikes that
/// answer unless there is none or it was struck already.
pub open spec fn jump_follows<F: Fn(StrikeOrigin, &Vec<u64>) -> Option<u64>>(
    find_closest: F,
    jumps: Seq<ChainJump>,
    k: int,
    per_chain: int,
) -> bool {
    &&& jumps[k].from == jump_origin(jumps, k, per_chain)
    &&& jumps[k].struck == strike_of(jumps[k].answer, struck_so_far(jumps.take(k)))
    &&& finder_answered(find_closest, jumps[k].from, struck_so_far(jumps.take(k)), jumps[k].answer)
}

proof fn lemma_jump_index(c: int, j: int, per_chain: int)
    requires
        0 <= c,
        0 <= j < per_chain,
    ensures
        (c * per_chain + j) % per_chain == j,
{
    vstd::arithmetic::div_mod::lemma_fundamental_div_mod_converse(
        c * per_chain + j,
        per_chain,
        c,
        j,
    );
}

/// The jumps of one volley, one record per jump: `chains` chains of `jumps_per_chain` jumps,
/// the chains one after the other. Each chain starts at the player; each jump asks
/// `find_closest` for the enemy nearest to where the chain stands, handing it the enemies
/// struck so far in this volley, strikes the answer and moves there. A jump whose answer is
/// none, or an enemy struck before, strikes nothing and the chain stays put; so no enemy is
/// struck twice, not even by two chains.
pub fn chain_lightning_strikes<F>(volley: &ChainLightningVolley, find_closest: F) -> (jumps: Vec<
    ChainJump,
>) where F: Fn(StrikeOrigin, &Vec<u64>) -> Option<u64>
    requires
        forall|origin: StrikeOrigin, seen: &Vec<u64>| #[trigger] find_closest.requires((origin, seen)),
    ensures
        jumps@.len() == volley.chains * volley.jumps_per_chain,
        forall|k: int|
            0 <= k < jumps@.len() ==> #[trigger] jump_follows(
                find_closest,
                jumps@,
                k,
                volley.jumps_per_chain as int,
            ),
        struck_so_far(jumps@).no_duplicates(),
        forall|k: int|
            0 <= k < jumps@.len() && k % (volley.jumps_per_chain as int) == 0 ==> (#[trigger] jumps@[k]).from
                == StrikeOrigin::Player,
        forall|k: int|
            0 < k < jumps@.len() && k % (volley.jumps_per_chain as int) != 0 ==> (#[trigger] jumps@[k]).from
                == match jumps@[k - 1].struck {
                Some(e) => StrikeOrigin::Enemy(e),
                None => jumps@[k - 1].from,
            },
        forall|k: int|
            0 <= k < jumps@.len() ==> (#[trigger] jumps@[k]).struck is Some ==> jumps@[k].struck
                == jumps@[k].answer,
        forall|k: int|
            0 <= k < jumps@.len() ==> match (#[trigger] jumps@[k]).answer {
                Some(e) => (jumps@[k].struck is None <==> struck_so_far(jumps@.take(k)).contains(e)),
                None => jumps@[k].struck is None,
            },
{
    let mut seen: Vec<u64> = Vec::new();
    let mut jumps: Vec<ChainJump> = Vec::new();
    let ghost per_chain = volley.jumps_per_chain as int;
    let mut c: u32 = 0;
    while c < volley.chains
        invariant
            c <= volley.chains,
            per_chain == volley.jumps_per_chain,
            forall|origin: StrikeOrigin, s: &Vec<u64>| #[trigger] find_closest.requires((origin, s)),
            seen@ == struck_so_far(jumps@),
            seen@.no_duplicates(),
            jumps@.len() == c * per_chain,
            forall|k: int|
                0 <= k < jumps@.len() ==> #[trigger] jump_follows(find_closest, jumps@, k, per_chain),
        decreases volley.chains - c,
    {
        let mut origin = StrikeOrigin::Player;
        let mut j: u32 = 0;
        while j < volley.jumps_per_chain
            invariant
                c < volley.chains,
                j <= volley.jumps_per_chain,
                per_chain == volley.jumps_per_chain,
                forall|origin: StrikeOrigin, s: &Vec<u64>| #[trigger] find_closest.requires(
                    (origin, s),
                ),
                seen@ == struck_so_far(jumps@),
                seen@.no_duplicates(),
                jumps@.len() == c * per_chain + j,
                j == 0 ==> origin == StrikeOrigin::Player,
                j > 0 ==> origin == after_jump(jumps@.last()),
                forall|k: int|
                    0 <= k < jumps@.len() ==> #[trigger] jump_follows(
                        find_closest,
                        jumps@,
                        k,
                        per_chain,
                    ),
            decreases volley.jumps_per_chain - j,
        {
            let ghost before = jumps@;
            let answer = find_closest(origin, &seen);
            let struck = match answer {
                Some(e) => if contains_entity(&seen, e) {
                    None
                } else {
                    Some(e)
                },
                None => None,
            };
            let jump = ChainJump { from: origin, answer, struck };
            proof {
                assert(call_ensures(find_closest, (origin, &seen), answer));
                assert(finder_answered(find_closest, origin, seen@, answer));
            }
            jumps.push(jump);
            match struck {
                Some(e) => {
                    seen.push(e);
                    origin = StrikeOrigin::Enemy(e);
                },
                None => {},
            }
            proof {
                let k = before.len() as int;
                assert(jumps@.drop_last() =~= before);
                assert(jumps@.take(k) =~= before);
                lemma_jump_index(c as int, j as int, per_chain);
                if j > 0 {
                    assert(k > 0);
                    assert(k % per_chain != 0);
                    assert(jumps@[k - 1] == before.last());
                }
                assert(jump_follows(find_closest, jumps@, k, per_chain));
                assert forall|i: int|
                    0 <= i < jumps@.len() implies #[trigger] jump_follows(
                    find_closest,
                    jumps@,
                    i,
                    per_chain,
                ) by {
                    if i < k {
                        assert(jumps@.take(i) =~= before.take(i));
                        assert(jumps@[i] == before[i]);
                        if i > 0 {
                            assert(jumps@[i - 1] == before[i - 1]);
                        } else {
                            lemma_jump_index(0, 0, per_chain);
                        }
                        assert(jump_follows(find_closest, before, i, per_chain));
                    }
                }
                assert(seen@ == struck_so_far(jumps@));
                assert(origin == after_jump(jumps@.last()));
            }
            j = j + 1;
        }
        proof {
            assert(c * per_chain + per_chain == (c + 1) * per_chain) by (nonlinear_arith);
        }
        c = c + 1;
    }
    proof {
        lemma_volley_jumps(find_closest, jumps@, volley.jumps_per_chain as int);
    }
    jumps
}

/// How the jumps of a volley move and strike, in terms of the jumps alone: each chain starts
/// at the player; within a chain the next jump starts on the enemy just struck, or where the
/// last jump started when it struck nothing, so a chain that found nobody in range stays put
/// and never goes back to the player; a jump strikes the finder's answer exactly when that
/// answer is an enemy not struck before.
pub proof fn lemma_volley_jumps<F: Fn(StrikeOrigin, &Vec<u64>) -> Option<u64>>(
    find_closest: F,
    jumps: Seq<ChainJump>,
    per_chain: int,
)
    requires
        forall|k: int| 0 <= k < jumps.len() ==> #[trigger] jump_follows(find_closest, jumps, k, per_chain),
    ensures
        forall|k: int|
            0 <= k < jumps.len() && k % per_chain == 0 ==> (#[trigger] jumps[k]).from
                == StrikeOrigin::Player,
        forall|k: int|
            0 < k < jumps.len() && k % per_chain != 0 ==> (#[trigger] jumps[k]).from == match jumps[k
                - 1].struck {
                Some(e) => StrikeOrigin::Enemy(e),
                None => jumps[k - 1].from,
            },
        forall|k: int|
            0 <= k < jumps.len() ==> (#[trigger] jumps[k]).struck is Some ==> jumps[k].struck
                == jumps[k].answer,
        forall|k: int|
            0 <= k < jumps.len() ==> match (#[trigger] jumps[k]).answer {
                Some(e) => (jumps[k].struck is None <==> struck_so_far(jumps.take(k)).contains(e)),
                None => jumps[k].struck is None,
            },
{
    assert forall|k: int| 0 <= k < jumps.len() implies {
        &&& (k % per_chain == 0 ==> (#[trigger] jumps[k]).from == StrikeOrigin::Player)
        &&& (0 < k && k % per_chain != 0 ==> jumps[k].from == match jumps[k - 1].struck {
            Some(e) => StrikeOrigin::Enemy(e),
            None => jumps[k - 1].from,
        })
        &&& (jumps[k].struck is Some ==> jumps[k].struck == jumps[k].answer)
        &&& match jumps[k].answer {
            Some(e) => (jumps[k].struck is None <==> struck_so_far(jumps.take(k)).contains(e)),
            None => jumps[k].struck is None,
        }
    } by {
        assert(jump_follows(find_closest, jumps, k, per_chain));
    }
}

} // verus!
