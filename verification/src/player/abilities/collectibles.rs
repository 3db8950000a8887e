//! Items that lie in the world until the player picks them up.

use vstd::prelude::*;
use crate::geometry::{overlaps, spec_overlaps};
use crate::player::abilities::{AbilityDescriptor, EquipSlot, PlayerInventory};
use crate::vector::{clamped, clamped_sum, Vector};

verus! {

/// The area around an item within which the player can pick it up, and the
/// ability that picking it up grants.
#[derive(Debug, Clone, Copy, PartialEq, Eq, Structural)]
pub struct CollectibleAbilityTrigger {
    pub size: Vector,
    /// Where the area is centred, relative to the item.
    pub offset: Vector,
    pub ability: AbilityDescriptor,
}

impl CollectibleAbilityTrigger {
    /// A trigger of 32 by 16 world units, centred on the item.
    pub fn default_with_descriptor(descriptor: AbilityDescriptor) -> (trigger: CollectibleAbilityTrigger)
        ensures
            trigger == (CollectibleAbilityTrigger {
                size: Vector { x: 32000, y: 16000 },
                offset: Vector { x: 0, y: 0 },
                ability: descriptor,
            }),
    {
        Self::new_with_descriptor(Vector { x: 32000, y: 16000 }, Vector { x: 0, y: 0 }, descriptor)
    }

    pub fn new_with_descriptor(size: Vector, offset: Vector, ability: AbilityDescriptor) -> (trigger:
        CollectibleAbilityTrigger)
        ensures
            trigger == (CollectibleAbilityTrigger { size, offset, ability }),
    {
        CollectibleAbilityTrigger { size, offset, ability }
    }
}

/// The area around an altar within which the player can combine abilities.
#[derive(Debug, Clone, Copy, PartialEq, Eq, Structural)]
pub struct CombineAltar {
    pub size: Vector,
    /// Where the area is centred, relative to the altar.
    pub offset: Vector,
}

/// Whether a player of the size `player_size` at `player_position` reaches
/// the area of the size `size` that is centred `offset` away from
/// `position`.
pub open spec fn in_reach(
    player_position: Vector,
    player_size: Vector,
    position: Vector,
    offset: Vector,
    size: Vector,
) -> bool {
    spec_overlaps(
        player_position,
        player_size,
        Vector { x: clamped(position.x + offset.x), y: clamped(position.y + offset.y) },
        size,
    )
}

/// Decides [`in_reach`].
pub fn reaches(player_position: Vector, player_size: Vector, position: Vector, offset: Vector, size: Vector) -> (reached:
    bool)
    ensures
        reached == in_reach(player_position, player_size, position, offset, size),
{
    overlaps(
        player_position,
        player_size,
        Vector { x: clamped_sum(position.x, offset.x), y: clamped_sum(position.y, offset.y) },
        size,
    )
}

/// What a player does with a collectible.
#[derive(Debug, Clone, Copy, PartialEq, Eq, Structural)]
pub struct Collecting {
    /// The player stands where the item can be picked up.
    pub in_reach: bool,
    /// The player picked the item up: it is to be despawned.
    pub collected: bool,
}

/// Lets a player pick up the item at `trigger_position`.
///
/// `slots` are the slots whose keys went down in this frame. A player who
/// reaches the item's area and pressed at least one such key picks the item
/// up, and every slot whose key went down then holds the item's ability.
/// Otherwise the inventory stays as it is.
pub fn collect_ability_system(
    player_position: Vector,
    player_size: Vector,
    trigger_position: Vector,
    trigger: &CollectibleAbilityTrigger,
    inventory: &mut PlayerInventory,
    slots: &Vec<EquipSlot>,
) -> (collecting: Collecting)
    ensures
        collecting.in_reach == in_reach(player_position, player_size, trigger_position, trigger.offset, trigger.size),
        collecting.collected == (collecting.in_reach && slots@.len() > 0),
        forall|slot: EquipSlot|
            #[trigger] final(inventory).at(slot) == if collecting.in_reach && slots@.contains(slot) {
                trigger.ability.id
            } else {
                old(inventory).at(slot)
            },
{
    if !reaches(player_position, player_size, trigger_position, trigger.offset, trigger.size) {
        return Collecting { in_reach: false, collected: false };
    }
    let mut i: usize = 0;
    while i < slots.len()
        invariant
            i <= slots@.len(),
            forall|slot: EquipSlot|
                #[trigger] inventory.at(slot) == if slots@.take(i as int).contains(slot) {
                    trigger.ability.id
                } else {
                    old(inventory).at(slot)
                },
        decreases slots@.len() - i,
    {
        let ghost before = *inventory;
        trigger.ability.equip(inventory, slots[i]);
        proof {
            let seen = slots@.take(i as int);
            let next = slots@.take(i + 1);
            assert(next.drop_last() =~= seen);
            assert(next.last() == slots@[i as int]);
            assert forall|slot: EquipSlot|
                #[trigger] inventory.at(slot) == if next.contains(slot) {
                    trigger.ability.id
                } else {
                    old(inventory).at(slot)
                } by {
                if slot == slots@[i as int] {
                    assert(next[i as int] == slot);
                } else {
                    assert(inventory.at(slot) == before.at(slot));
                    if seen.contains(slot) {
                        let k = choose|k: int| 0 <= k < seen.len() && seen[k] == slot;
                        assert(next[k] == slot);
                    }
                    if next.contains(slot) {
                        let k = choose|k: int| 0 <= k < next.len() && next[k] == slot;
                        assert(seen[k] == slot);
                    }
                }
            }
        }
        i = i + 1;
    }
    proof {
        assert(slots@.take(slots@.len() as int) =~= slots@);
    }
    Collecting { in_reach: true, collected: slots.len() > 0 }
}

} // verus!
