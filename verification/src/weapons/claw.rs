use vstd::prelude::*;

use crate::components::{AttackAmmo, ProjectileBendLeftOrRight};

verus! {

impl ProjectileBendLeftOrRight {
    /// Returns the current side and switches to the other one for the next attack.
    pub fn alternate(&mut self) -> (was: bool)
        ensures
            was == old(self).0,
            final(self).0 == !old(self).0,
    {
        let was = self.0;
        self.0 = !was;
        was
    }
}

/// One attack of a weapon that strikes on alternate sides (the claw, the arcane missile):
/// spends one attack and tells which side this one comes from (`true`: the flipped side).
/// Two attacks in a row come from opposite sides.
pub fn spawn_alternating_attack(ammo: &mut AttackAmmo, side: &mut ProjectileBendLeftOrRight) -> (is_flip: bool)
    requires
        old(ammo).amount > 0,
    ensures
        is_flip == old(side).0,
        final(side).0 == !old(side).0,
        final(ammo).amount == old(ammo).amount - 1,
        final(ammo).capacity == old(ammo).capacity,
        final(ammo).initial_capacity == old(ammo).initial_capacity,
{
    let is_flip = side.alternate();
    ammo.consume_one();
    is_flip
}

/// Where one claw of the upgraded claw appears around the player.
#[derive(Debug, Clone, Copy, PartialEq, Eq, Structural)]
pub enum ClawSlot {
    Left,
    Below,
    Right,
    Above,
}

impl ClawSlot {
    /// The claws on the left and below are drawn mirrored.
    pub open spec fn spec_is_flipped(self) -> bool {
        self == ClawSlot::Left || self == ClawSlot::Below
    }

    pub fn is_flipped(&self) -> (r: bool)
        ensures
            r == self.spec_is_flipped(),
    {
        match self {
            ClawSlot::Left => true,
            ClawSlot::Below => true,
            _ => false,
        }
    }
}

/// The slot of the claw fired while `amount` attacks are left.
pub open spec fn spec_claw_slot(amount: nat) -> ClawSlot {
    if amount % 4 == 0 {
        ClawSlot::Left
    } else if amount % 4 == 1 {
        ClawSlot::Below
    } else if amount % 4 == 2 {
        ClawSlot::Right
    } else {
        ClawSlot::Above
    }
}

/// The number of claws the upgraded claw fires at once: four, or what is left if less.
pub open spec fn claw_burst_len(amount: nat) -> nat {
    if amount < 4 {
        amount
    } else {
        4
    }
}

/// One burst of the upgraded claw: up to four claws, each placed by how many attacks were left
/// when it was fired, each spending one attack.
pub fn spawn_claw_upgrade_attack(ammo: &mut AttackAmmo) -> (slots: Vec<ClawSlot>)
    ensures
        slots@.len() == claw_burst_len(old(ammo).amount as nat),
        forall|i: int| 0 <= i < slots@.len() ==> #[trigger] slots@[i] == spec_claw_slot(
            (old(ammo).amount - i) as nat,
        ),
        final(ammo).amount == old(ammo).amount - claw_burst_len(old(ammo).amount as nat),
        final(ammo).capacity == old(ammo).capacity,
        final(ammo).initial_capacity == old(ammo).initial_capacity,
{
    let mut slots: Vec<ClawSlot> = Vec::new();
    let mut counter: u32 = 4;
    while ammo.amount > 0 && counter > 0
        invariant
            counter <= 4,
            slots@.len() == 4 - counter,
            ammo.amount == old(ammo).amount - slots@.len(),
            ammo.capacity == old(ammo).capacity,
            ammo.initial_capacity == old(ammo).initial_capacity,
            forall|i: int| 0 <= i < slots@.len() ==> #[trigger] slots@[i] == spec_claw_slot(
                (old(ammo).amount - i) as nat,
            ),
        decreases counter,
    {
        counter = counter - 1;
        let rest = ammo.amount % 4;
        let slot = if rest == 0 {
            ClawSlot::Left
        } else if rest == 1 {
            ClawSlot::Below
        } else if rest == 2 {
            ClawSlot::Right
        } else {
            ClawSlot::Above
        };
        slots.push(slot);
        ammo.consume_one();
    }
    slots
}

} // verus!
