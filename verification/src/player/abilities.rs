//! Collectible abilities and the two slots that they are equipped in.
//!
//! An item is what lies in the world; an ability is the skill that the item
//! grants, such as dashing or a second jump.

pub mod collectibles;
pub mod skills;

pub use crate::player::abilities::skills::{
    crouch_collision_system, double_jump_land_system, player_crouch_system, player_dash_system,
    player_double_jump_system, player_wall_jump_system, wall_jump_collision_system, PlayerCrouch, PlayerDash,
    PlayerDoubleJump, PlayerWallJump,
};

use vstd::prelude::*;
use crate::collision::Entity;
use crate::geometry::{overlaps, spec_overlaps};
use crate::vector::Vector;

verus! {

/// A collectible item.
#[derive(Debug, PartialEq, Eq, Hash, Clone, Copy, Structural)]
pub enum AbilityItem {
    Fire,
    Earth,
    Water,
    Steam,
    Stone,
}

/// A skill that can be equipped; `Empty` stands for a slot without one.
#[derive(Clone, Copy, PartialEq, Eq, Debug, Structural)]
pub enum AbilityId {
    Empty,
    Dash,
    Shoot,
    WallJump,
    DoubleJump,
    Crouch,
}

/// A button of the mouse.
#[derive(Debug, Clone, Copy, PartialEq, Eq, Structural)]
pub enum MouseButton {
    Left,
    Right,
    Middle,
    Other(u16),
}

/// The state of the mouse buttons that trigger slots: which are held down,
/// or which went down in this frame.
#[derive(Debug, Clone, Copy, PartialEq, Eq, Structural)]
pub struct MouseInput {
    pub left: bool,
    pub right: bool,
}

impl MouseInput {
    pub open spec fn spec_holds(self, btn: MouseButton) -> bool {
        match btn {
            MouseButton::Left => self.left,
            MouseButton::Right => self.right,
            _ => false,
        }
    }

    /// Whether `btn` is among the buttons.
    #[verifier::when_used_as_spec(spec_holds)]
    pub fn holds(self, btn: MouseButton) -> (held: bool)
        ensures
            held == self.spec_holds(btn),
    {
        match btn {
            MouseButton::Left => self.left,
            MouseButton::Right => self.right,
            _ => false,
        }
    }

    /// Whether the button of `slot` is among the buttons.
    pub open spec fn triggers(self, slot: EquipSlot) -> bool {
        match slot {
            EquipSlot::Left => self.left,
            EquipSlot::Right => self.right,
        }
    }
}

/// One of the two slots, each bound to a mouse button.
#[derive(Debug, Clone, Copy, PartialEq, Eq, Structural)]
pub enum EquipSlot {
    Left,
    Right,
}

impl EquipSlot {
    /// The slot that `btn` triggers, if it triggers one.
    pub open spec fn slot_of(btn: MouseButton) -> Option<EquipSlot> {
        match btn {
            MouseButton::Left => Some(EquipSlot::Left),
            MouseButton::Right => Some(EquipSlot::Right),
            _ => None,
        }
    }

    /// The slot that `btn` triggers, if it triggers one.
    pub fn from_mouse_btn(btn: MouseButton) -> (slot: Option<EquipSlot>)
        ensures
            slot == Self::slot_of(btn),
    {
        match btn {
            MouseButton::Left => Some(EquipSlot::Left),
            MouseButton::Right => Some(EquipSlot::Right),
            _ => None,
        }
    }

    /// The button that triggers this slot.
    pub fn to_mouse_btn(self) -> (btn: MouseButton)
        ensures
            btn == match self {
                EquipSlot::Left => MouseButton::Left,
                EquipSlot::Right => MouseButton::Right,
            },
            Self::slot_of(btn) == Some(self),
    {
        match self {
            EquipSlot::Left => MouseButton::Left,
            EquipSlot::Right => MouseButton::Right,
        }
    }
}

/// What is known of an ability without equipping it.
#[derive(Clone, Copy, Debug, PartialEq, Eq, Structural)]
pub struct AbilityDescriptor {
    pub id: AbilityId,
}

/// The abilities equipped in the left and the right slot.
#[derive(Debug, Clone, Copy, PartialEq, Eq, Structural)]
pub struct PlayerInventory(pub AbilityId, pub AbilityId);

impl PlayerInventory {
    /// The ability in `slot`.
    pub open spec fn at(self, slot: EquipSlot) -> AbilityId {
        match slot {
            EquipSlot::Left => self.0,
            EquipSlot::Right => self.1,
        }
    }

    /// The inventory with both slots empty.
    pub fn new() -> (inventory: PlayerInventory)
        ensures
            inventory == PlayerInventory(AbilityId::Empty, AbilityId::Empty),
    {
        PlayerInventory(AbilityId::Empty, AbilityId::Empty)
    }

    /// The inventory with `left` and `right` equipped.
    pub fn new_with(left: AbilityId, right: AbilityId) -> (inventory: PlayerInventory)
        ensures
            inventory == PlayerInventory(left, right),
    {
        PlayerInventory(left, right)
    }

    /// Puts `id` into `slot`, in place of what was there.
    pub fn equip(&mut self, id: AbilityId, slot: EquipSlot)
        ensures
            final(self).at(slot) == id,
            forall|other: EquipSlot| other != slot ==> final(self).at(other) == old(self).at(other),
    {
        match slot {
            EquipSlot::Left => self.0 = id,
            EquipSlot::Right => self.1 = id,
        }
    }

    /// Empties every slot that holds `id`.
    pub fn unequip(&mut self, id: AbilityId)
        ensures
            forall|slot: EquipSlot|
                final(self).at(slot) == if old(self).at(slot) == id {
                    AbilityId::Empty
                } else {
                    old(self).at(slot)
                },
    {
        if self.0 == id {
            self.0 = AbilityId::Empty;
        }
        if self.1 == id {
            self.1 = AbilityId::Empty;
        }
    }

    /// Whether `slot` holds `id`.
    pub fn is_equipped_at(&self, id: AbilityId, slot: EquipSlot) -> (equipped: bool)
        ensures
            equipped == (self.at(slot) == id),
    {
        match slot {
            EquipSlot::Left => id == self.0,
            EquipSlot::Right => id == self.1,
        }
    }

    /// The first slot that holds `id`, the left one first.
    pub open spec fn slot_of(self, id: AbilityId) -> Option<EquipSlot> {
        if self.0 == id {
            Some(EquipSlot::Left)
        } else if self.1 == id {
            Some(EquipSlot::Right)
        } else {
            None
        }
    }

    /// Whether `id` is equipped and `buttons` holds the button of its slot.
    pub open spec fn triggered(self, id: AbilityId, buttons: MouseInput) -> bool {
        self.slot_of(id) matches Some(slot) && buttons.triggers(slot)
    }

    /// Decides [`held`]: whether a button of `pressed` triggers a slot that
    /// holds `id`.
    pub fn is_held(&self, id: AbilityId, pressed: MouseInput) -> (triggered: bool)
        ensures
            triggered == held(*self, id, pressed),
    {
        (pressed.left && self.is_equipped_at(id, EquipSlot::Left)) || (pressed.right && self.is_equipped_at(
            id,
            EquipSlot::Right,
        ))
    }

    /// Decides [`PlayerInventory::triggered`].
    pub fn is_triggered(&self, id: AbilityId, buttons: MouseInput) -> (pressed: bool)
        ensures
            pressed == self.triggered(id, buttons),
    {
        match self.get_equipped_at(id) {
            Some(slot) => buttons.holds(slot.to_mouse_btn()),
            None => false,
        }
    }

    /// The first slot that holds `id`, the left one first.
    pub fn get_equipped_at(&self, id: AbilityId) -> (slot: Option<EquipSlot>)
        ensures
            slot == self.slot_of(id),
    {
        if self.0 == id {
            Some(EquipSlot::Left)
        } else if self.1 == id {
            Some(EquipSlot::Right)
        } else {
            None
        }
    }

    /// The first empty slot, the left one first.
    pub fn first_free_slot(&self) -> (slot: Option<EquipSlot>)
        ensures
            slot == self.slot_of(AbilityId::Empty),
    {
        self.get_equipped_at(AbilityId::Empty)
    }
}

impl AbilityDescriptor {
    /// The ability that `item` grants; water grants none.
    pub open spec fn ability_of(item: AbilityItem) -> Option<AbilityDescriptor> {
        match item {
            AbilityItem::Fire => Some(AbilityDescriptor { id: AbilityId::Dash }),
            AbilityItem::Earth => Some(AbilityDescriptor { id: AbilityId::Shoot }),
            AbilityItem::Steam => Some(AbilityDescriptor { id: AbilityId::DoubleJump }),
            AbilityItem::Stone => Some(AbilityDescriptor { id: AbilityId::Crouch }),
            AbilityItem::Water => None,
        }
    }

    /// The ability that `item` grants, if it grants one.
    pub fn of_item(item: AbilityItem) -> (descriptor: Option<AbilityDescriptor>)
        ensures
            descriptor == Self::ability_of(item),
    {
        match item {
            AbilityItem::Fire => Some(AbilityDescriptor { id: AbilityId::Dash }),
            AbilityItem::Earth => Some(AbilityDescriptor { id: AbilityId::Shoot }),
            AbilityItem::Steam => Some(AbilityDescriptor { id: AbilityId::DoubleJump }),
            AbilityItem::Stone => Some(AbilityDescriptor { id: AbilityId::Crouch }),
            AbilityItem::Water => None,
        }
    }

    pub fn id(&self) -> (id: &AbilityId)
        ensures
            *id == self.id,
    {
        &self.id
    }

    /// Whether this describes the empty slot.
    pub fn is_none(&self) -> (none: bool)
        ensures
            none == (self.id == AbilityId::Empty),
    {
        self.id == AbilityId::Empty
    }

    /// Takes the ability out of every slot of `inventory` that holds it.
    pub fn unequip(&self, inventory: &mut PlayerInventory)
        ensures
            forall|slot: EquipSlot|
                final(inventory).at(slot) == if old(inventory).at(slot) == self.id {
                    AbilityId::Empty
                } else {
                    old(inventory).at(slot)
                },
    {
        inventory.unequip(self.id);
    }

    /// Puts the ability into `equip_slot` of `inventory`.
    pub fn equip(&self, inventory: &mut PlayerInventory, equip_slot: EquipSlot)
        ensures
            final(inventory).at(equip_slot) == self.id,
            forall|other: EquipSlot| other != equip_slot ==> final(inventory).at(other) == old(inventory).at(other),
    {
        inventory.equip(self.id, equip_slot);
    }
}

/// Speed of the player's shots, in steps per frame.
pub const PLAYER_PROJECTILE_SPEED: i32 = 5500;

/// Time between two shots, in milliseconds.
pub const PLAYER_SHOOT_INTERVAL: u64 = 450;

/// Width and height of a shot.
pub const PLAYER_SHOT_SIZE: i32 = 4000;

/// After this many milliseconds a shot that hit nothing disappears.
pub const PLAYER_SHOT_LIFETIME: u64 = 30000;

/// The shooting skill.
#[derive(Debug, Clone, Copy, PartialEq, Eq, Structural)]
pub struct PlayerShoot {
    /// When the last shot was fired, in milliseconds.
    pub last_shot: u64,
}

impl PlayerShoot {
    /// The skill as it is equipped at the time `now`: the first shot has to
    /// wait as if one had just been fired.
    pub fn new(now: u64) -> (shoot: PlayerShoot)
        ensures
            shoot.last_shot == now,
    {
        PlayerShoot { last_shot: now }
    }
}

/// Milliseconds from `since` to `now`; none where `now` is the earlier.
pub open spec fn elapsed(since: u64, now: u64) -> int {
    if now >= since {
        now - since
    } else {
        0
    }
}

/// Milliseconds from `since` to `now`; none where `now` is the earlier.
pub fn elapsed_since(since: u64, now: u64) -> (passed: u64)
    ensures
        passed == elapsed(since, now),
{
    if now >= since {
        now - since
    } else {
        0
    }
}

/// A held button triggers a slot that holds `id`.
pub open spec fn held(inv: PlayerInventory, id: AbilityId, pressed: MouseInput) -> bool {
    (pressed.left && inv.0 == id) || (pressed.right && inv.1 == id)
}

/// Decides whether the player fires a shot at the time `now`, with the
/// mouse buttons `pressed` held down.
///
/// A shot is fired when a held button triggers a slot with the shooting
/// skill and the last shot is at least [`PLAYER_SHOOT_INTERVAL`] ago; the
/// shot is then the last one.
pub fn player_shoot_system(pressed: MouseInput, inv: &PlayerInventory, player_shoot: &mut PlayerShoot, now: u64) -> (fire:
    bool)
    ensures
        fire == (held(*inv, AbilityId::Shoot, pressed) && elapsed(old(player_shoot).last_shot, now)
            >= PLAYER_SHOOT_INTERVAL),
        final(player_shoot).last_shot == if fire {
            now
        } else {
            old(player_shoot).last_shot
        },
{
    if inv.is_held(AbilityId::Shoot, pressed) && elapsed_since(player_shoot.last_shot, now) >= PLAYER_SHOOT_INTERVAL {
        player_shoot.last_shot = now;
        true
    } else {
        false
    }
}

/// A shot of the player, which breaks breakable walls.
#[derive(Debug, Clone, Copy, PartialEq, Eq, Structural)]
pub struct PlayerShotProjectile {
    pub size: Vector,
    /// When the shot was fired, in milliseconds.
    pub creation_time: u64,
}

impl PlayerShotProjectile {
    pub fn new(size: Vector, now: u64) -> (shot: PlayerShotProjectile)
        ensures
            shot == (PlayerShotProjectile { size, creation_time: now }),
    {
        PlayerShotProjectile { size, creation_time: now }
    }
}

/// A static collider as a shot sees it.
#[derive(Debug, Clone, Copy, PartialEq, Eq, Structural)]
pub struct Wall {
    pub entity: Entity,
    pub position: Vector,
    pub size: Vector,
    pub breakable: bool,
}

/// What becomes of a shot.
#[derive(Debug, Clone, Copy, PartialEq, Eq, Structural)]
pub struct ShotOutcome {
    pub despawn_shot: bool,
    /// The wall that the shot breaks.
    pub despawn_wall: Option<Entity>,
}

/// None of the first `n` walls overlaps the shot at `position`.
pub open spec fn misses(position: Vector, shot: PlayerShotProjectile, walls: Seq<Wall>, n: int) -> bool {
    forall|k: int| 0 <= k < n ==> !spec_overlaps(position, shot.size, (#[trigger] walls[k]).position, walls[k].size)
}

/// Decides what becomes of the shot at `position` at the time `now`.
///
/// A shot that overlaps a wall disappears, and takes the first wall that
/// it overlaps with it if that wall is breakable. A shot that overlaps none
/// disappears once it is older than [`PLAYER_SHOT_LIFETIME`].
pub fn player_shot_collision_system(
    position: Vector,
    shot: &PlayerShotProjectile,
    walls: &Vec<Wall>,
    now: u64,
) -> (outcome: ShotOutcome)
    ensures
        misses(position, *shot, walls@, walls@.len() as int) ==> outcome == (ShotOutcome {
            despawn_shot: elapsed(shot.creation_time, now) > PLAYER_SHOT_LIFETIME,
            despawn_wall: None,
        }),
        !misses(position, *shot, walls@, walls@.len() as int) ==> exists|i: int|
            0 <= i < walls@.len() && misses(position, *shot, walls@, i) && spec_overlaps(
                position,
                shot.size,
                (#[trigger] walls@[i]).position,
                walls@[i].size,
            ) && outcome == (ShotOutcome {
                despawn_shot: true,
                despawn_wall: if walls@[i].breakable {
                    Some(walls@[i].entity)
                } else {
                    None
                },
            }),
{
    let mut i: usize = 0;
    while i < walls.len()
        invariant
            i <= walls@.len(),
            misses(position, *shot, walls@, i as int),
        decreases walls@.len() - i,
    {
        if overlaps(position, shot.size, walls[i].position, walls[i].size) {
            return ShotOutcome {
                despawn_shot: true,
                despawn_wall: if walls[i].breakable {
                    Some(walls[i].entity)
                } else {
                    None
                },
            };
        }
        i = i + 1;
    }
    ShotOutcome { despawn_shot: elapsed_since(shot.creation_time, now) > PLAYER_SHOT_LIFETIME, despawn_wall: None }
}

} // verus!
