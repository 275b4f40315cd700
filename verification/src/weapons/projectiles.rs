use vstd::prelude::*;

use crate::components::{contains_entity, lemma_concat_contains, AlreadyHitEnemies, AttackAmmo};

verus! {

impl AttackAmmo {
    /// A spawner created with `initial` attacks: the player's extra attack amount adds to the
    /// capacity, while the first load holds `initial` attacks.
    pub fn new(initial: u32, attack_amount: u32) -> (r: AttackAmmo)
        requires
            initial + attack_amount <= u32::MAX,
        ensures
            r.capacity == initial + attack_amount,
            r.initial_capacity == initial,
            r.amount == initial,
    {
        AttackAmmo { capacity: initial + attack_amount, initial_capacity: initial, amount: initial }
    }

    /// Whether the spawner has run dry and must start reloading.
    pub fn start_reload_attack_spawner(&self) -> (r: bool)
        ensures
            r == (self.amount == 0),
    {
        self.amount == 0
    }

    /// Refills the spawner when its reload is over.
    pub fn reloading_attack_spawner(&mut self)
        ensures
            final(self).amount == old(self).capacity,
            final(self).capacity == old(self).capacity,
            final(self).initial_capacity == old(self).initial_capacity,
    {
        self.amount = self.capacity;
    }

    /// Recomputes the capacity from the player's extra attack amount.
    pub fn weapons_update_stats(&mut self, attack_amount: u32)
        requires
            old(self).initial_capacity + attack_amount <= u32::MAX,
        ensures
            final(self).capacity == old(self).initial_capacity + attack_amount,
            final(self).initial_capacity == old(self).initial_capacity,
            final(self).amount == old(self).amount,
    {
        self.capacity = self.initial_capacity + attack_amount;
    }

    /// Raises both the capacity and the initial capacity by `extra`.
    pub fn add_capacity(&mut self, extra: u32)
        requires
            old(self).capacity + extra <= u32::MAX,
            old(self).initial_capacity + extra <= u32::MAX,
        ensures
            final(self).capacity == old(self).capacity + extra,
            final(self).initial_capacity == old(self).initial_capacity + extra,
            final(self).amount == old(self).amount,
    {
        self.initial_capacity = self.initial_capacity + extra;
        self.capacity = self.capacity + extra;
    }

    /// Spends one attack.
    pub fn consume_one(&mut self)
        requires
            old(self).amount > 0,
        ensures
            final(self).amount == old(self).amount - 1,
            final(self).capacity == old(self).capacity,
            final(self).initial_capacity == old(self).initial_capacity,
    {
        self.amount = self.amount - 1;
    }
}

/// The number of extra projectiles a split or duplication spawns: two, plus the player's extra
/// attack amount.
pub fn split_projectile_count(attack_amount: u32) -> (r: u32)
    requires
        attack_amount + 2 <= u32::MAX,
    ensures
        r == attack_amount + 2,
{
    2 + attack_amount
}

/// The enemies a projectile damages among those it touches, in order: each touched enemy that
/// is neither in `seen` nor touched earlier in the list.
pub open spec fn new_hits(colliding: Seq<u64>, seen: Seq<u64>) -> Seq<u64>
    decreases colliding.len(),
{
    if colliding.len() == 0 {
        Seq::empty()
    } else {
        let earlier = new_hits(colliding.drop_last(), seen);
        let e = colliding.last();
        if seen.contains(e) || earlier.contains(e) {
            earlier
        } else {
            earlier.push(e)
        }
    }
}

/// What a projectile does with the enemies it touches this frame.
pub struct ProjectileHits {
    /// The enemies that receive a hit, in order.
    pub hits: Vec<u64>,
    /// Whether the projectile is spent.
    pub delete_projectile: bool,
}

impl AlreadyHitEnemies {
    /// A projectile that has hit no one yet.
    pub fn new() -> (r: AlreadyHitEnemies)
        ensures
            r.seen@ == Seq::<u64>::empty(),
    {
        AlreadyHitEnemies { seen: Vec::new() }
    }

    /// Records the touched enemies that were not hit before and returns them, in order.
    pub fn register_hits(&mut self, colliding: &Vec<u64>) -> (hits: Vec<u64>)
        ensures
            hits@ == new_hits(colliding@, old(self).seen@),
            final(self).seen@ == old(self).seen@ + hits@,
    {
        let ghost seen0 = self.seen@;
        let mut hits: Vec<u64> = Vec::new();
        let mut i: usize = 0;
        while i < colliding.len()
            invariant
                0 <= i <= colliding.len(),
                hits@ == new_hits(colliding@.take(i as int), seen0),
                self.seen@ == seen0 + hits@,
            decreases colliding.len() - i,
        {
            let e = colliding[i];
            proof {
                assert(colliding@.take(i + 1).drop_last() =~= colliding@.take(i as int));
                assert(colliding@.take(i + 1).last() == e);
                lemma_concat_contains(seen0, hits@, e);
            }
            if !contains_entity(&self.seen, e) {
                hits.push(e);
                self.seen.push(e);
                assert(self.seen@ =~= seen0 + hits@);
            }
            i = i + 1;
        }
        assert(colliding@.take(i as int) =~= colliding@);
        hits
    }
}

/// Resolves the enemies a projectile touches this frame. `attack_ready` is false for a
/// projectile that waits between two damages and whose wait has not just run out: it hits
/// nothing this frame and keeps its memory. Otherwise a projectile that remembers whom it hit
/// (`already_hit` is `Some`) damages each enemy once in its life, and one that does not damages
/// every touched enemy. A projectile that does not pierce is spent as soon as it hits.
pub fn handle_projectile_colliding_with_enemy(
    colliding: &Vec<u64>,
    already_hit: &mut Option<AlreadyHitEnemies>,
    pierce: bool,
    attack_ready: bool,
) -> (r: ProjectileHits)
    ensures
        !attack_ready ==> r.hits@.len() == 0 && *final(already_hit) == *old(already_hit),
        attack_ready ==> match *old(already_hit) {
            Some(before) => {
                &&& r.hits@ == new_hits(colliding@, before.seen@)
                &&& *final(already_hit) matches Some(after) && after.seen@ == before.seen@ + r.hits@
            },
            None => {
                &&& r.hits@ == colliding@
                &&& *final(already_hit) is None
            },
        },
        r.delete_projectile == (!pierce && r.hits@.len() > 0),
{
    if !attack_ready {
        return ProjectileHits { hits: Vec::new(), delete_projectile: false };
    }
    let hits = match already_hit.take() {
        Some(mut seen) => {
            let hits = seen.register_hits(colliding);
            *already_hit = Some(seen);
            hits
        },
        None => colliding.clone(),
    };
    let delete_projectile = !pierce && hits.len() > 0;
    ProjectileHits { hits, delete_projectile }
}

/// Every enemy hit is one the projectile touched and had not hit before, no enemy is hit twice,
/// and afterwards every touched enemy counts as already hit.
pub proof fn lemma_new_hits_properties(colliding: Seq<u64>, seen: Seq<u64>)
    ensures
        forall|e: u64| #[trigger] new_hits(colliding, seen).contains(e) ==> colliding.contains(e)
            && !seen.contains(e),
        new_hits(colliding, seen).no_duplicates(),
        forall|e: u64| #[trigger] colliding.contains(e) ==> (seen + new_hits(colliding, seen)).contains(e),
    decreases colliding.len(),
{
    if colliding.len() > 0 {
        let rest = colliding.drop_last();
        let e = colliding.last();
        lemma_new_hits_properties(rest, seen);
        let earlier = new_hits(rest, seen);
        assert forall|x: u64| #[trigger] new_hits(colliding, seen).contains(x) implies colliding.contains(x)
            && !seen.contains(x) by {
            if earlier.contains(x) {
                assert(rest.contains(x));
                let k = choose|k: int| 0 <= k < rest.len() && rest[k] == x;
                assert(colliding[k] == x);
            } else {
                assert(x == e);
                assert(colliding[colliding.len() - 1] == x);
            }
        }
        let now = new_hits(colliding, seen);
        assert forall|x: u64| #[trigger] colliding.contains(x) implies (seen + now).contains(x) by {
            lemma_concat_contains(seen, now, x);
            lemma_concat_contains(seen, earlier, x);
            let k = choose|k: int| 0 <= k < colliding.len() && colliding[k] == x;
            if k < colliding.len() - 1 {
                assert(rest[k] == x);
                assert(rest.contains(x));
                assert((seen + earlier).contains(x));
            } else {
                assert(x == e);
                if !(seen.contains(e) || earlier.contains(e)) {
                    assert(now[now.len() - 1] == e);
                }
            }
            if earlier.contains(x) {
                let j = choose|j: int| 0 <= j < earlier.len() && earlier[j] == x;
                assert(now[j] == x);
            }
        }
    }
}

/// A projectile that remembers whom it hit never hits the same enemies twice: once a set of
/// touched enemies has been resolved, resolving it again hits no one.
pub proof fn lemma_no_second_hit(colliding: Seq<u64>, seen: Seq<u64>)
    ensures
        new_hits(colliding, seen + new_hits(colliding, seen)) == Seq::<u64>::empty(),
{
    lemma_new_hits_properties(colliding, seen);
    lemma_new_hits_of_seen(colliding, seen + new_hits(colliding, seen));
}

/// Touched enemies that were all hit before give no new hit.
proof fn lemma_new_hits_of_seen(colliding: Seq<u64>, seen: Seq<u64>)
    requires
        forall|e: u64| #[trigger] colliding.contains(e) ==> seen.contains(e),
    ensures
        new_hits(colliding, seen) == Seq::<u64>::empty(),
    decreases colliding.len(),
{
    if colliding.len() > 0 {
        let rest = colliding.drop_last();
        assert forall|e: u64| #[trigger] rest.contains(e) implies seen.contains(e) by {
            let k = choose|k: int| 0 <= k < rest.len() && rest[k] == e;
            assert(colliding[k] == e);
            assert(colliding.contains(e));
        }
        lemma_new_hits_of_seen(rest, seen);
        assert(colliding[colliding.len() - 1] == colliding.last());
        assert(colliding.contains(colliding.last()));
    }
}

} // verus!
