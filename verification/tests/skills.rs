use platformer_core::collision::Collision;
use platformer_core::physics::{Gravity, VelocityMap};
use platformer_core::player::abilities::skills::crouch::{
    crouch_collision_system, player_crouch_system, CrouchState, Landing, PlayerCrouch,
};
use platformer_core::player::abilities::skills::dash::{player_dash_system, PlayerDash};
use platformer_core::player::abilities::skills::double_jump::{
    double_jump_land_system, player_double_jump_system, PlayerDoubleJump,
};
use platformer_core::player::abilities::skills::wall_jump::{
    player_wall_jump_system, wall_jump_collision_system, PlayerWallJump, WallSide,
};
use platformer_core::player::abilities::{AbilityId, MouseButton, MouseInput, PlayerInventory};
use platformer_core::player::{PlayerCollisionEvent, PlayerLandEvent, PlayerMovement};
use platformer_core::vector::Vector;

const NONE: MouseInput = MouseInput { left: false, right: false };
const LEFT: MouseInput = MouseInput { left: true, right: false };
const RIGHT: MouseInput = MouseInput { left: false, right: true };

fn fresh() -> (PlayerMovement, Gravity) {
    let mut map = VelocityMap::new(1);
    let player = PlayerMovement::new_in(&mut map);
    let gravity = Gravity::new_in(&mut map);
    (player, gravity)
}

fn contact(side: Collision) -> PlayerCollisionEvent {
    PlayerCollisionEvent { player_entity: 1, static_entity: 7, collision_side: side }
}

#[test]
fn mouse_input_by_button() {
    assert!(LEFT.holds(MouseButton::Left));
    assert!(!LEFT.holds(MouseButton::Right));
    assert!(!LEFT.holds(MouseButton::Middle));
    assert!(RIGHT.holds(MouseButton::Right));
    let inventory = PlayerInventory::new_with(AbilityId::Dash, AbilityId::Crouch);
    assert!(inventory.is_triggered(AbilityId::Dash, LEFT));
    assert!(!inventory.is_triggered(AbilityId::Dash, RIGHT));
    assert!(inventory.is_triggered(AbilityId::Crouch, RIGHT));
    assert!(!inventory.is_triggered(AbilityId::Shoot, LEFT));
}

#[test]
fn double_jump_once_per_landing() {
    let (mut player, mut gravity) = fresh();
    let mut jump = PlayerDoubleJump::default();
    assert!(jump.can_dbl_jump);
    let inventory = PlayerInventory::new_with(AbilityId::Empty, AbilityId::DoubleJump);
    gravity.velocity = Vector::new(0, -700);
    player.velocity = Vector::new(3500, -20);

    assert!(!player_double_jump_system(&mut gravity, &mut jump, &mut player, &inventory, LEFT));
    assert!(!player_double_jump_system(&mut gravity, &mut jump, &mut player, &inventory, NONE));
    assert_eq!(player.velocity, Vector::new(3500, -20));

    assert!(player_double_jump_system(&mut gravity, &mut jump, &mut player, &inventory, RIGHT));
    assert_eq!(player.velocity, Vector::new(3500, 10500));
    assert_eq!(gravity.velocity, Vector::zero());
    assert!(!player.can_jump);
    assert!(!jump.can_dbl_jump);

    player.velocity.y = 5;
    assert!(!player_double_jump_system(&mut gravity, &mut jump, &mut player, &inventory, RIGHT));
    assert_eq!(player.velocity.y, 5);
    double_jump_land_system(&mut jump);
    assert!(jump.can_dbl_jump);

    let without = PlayerInventory::new();
    assert!(!player_double_jump_system(&mut gravity, &mut jump, &mut player, &without, RIGHT));
}

#[test]
fn wall_jump_leaves_the_wall() {
    let (mut player, mut gravity) = fresh();
    let inventory = PlayerInventory::new_with(AbilityId::WallJump, AbilityId::Empty);
    let mut wall_jump = PlayerWallJump::default();
    assert_eq!(wall_jump, PlayerWallJump { wall_side: None, wall_jumped: false });
    gravity.velocity = Vector::new(0, -500);

    // no wall, no jump; the press is used up all the same
    player_wall_jump_system(&mut gravity, &mut player, &mut wall_jump, &inventory, LEFT);
    assert_eq!(player.velocity, Vector::zero());
    assert_eq!(gravity.velocity, Vector::new(0, -500));

    wall_jump.wall_side = Some(WallSide::Right);
    player_wall_jump_system(&mut gravity, &mut player, &mut wall_jump, &inventory, RIGHT);
    assert_eq!(wall_jump.wall_side, Some(WallSide::Right));
    assert_eq!(player.velocity, Vector::zero());

    player_wall_jump_system(&mut gravity, &mut player, &mut wall_jump, &inventory, LEFT);
    assert_eq!(player.velocity, Vector::new(4000, 7000));
    assert_eq!(gravity.velocity, Vector::zero());
    assert_eq!(wall_jump, PlayerWallJump { wall_side: None, wall_jumped: true });
    assert!(player.move_forbid_set.contains(AbilityId::WallJump));

    wall_jump.wall_side = Some(WallSide::Left);
    player_wall_jump_system(&mut gravity, &mut player, &mut wall_jump, &inventory, LEFT);
    assert_eq!(player.velocity, Vector::new(-4000, 7000));
    assert_eq!(wall_jump.wall_side, None);
}

#[test]
fn wall_jump_remembers_the_last_wall() {
    let (mut player, _) = fresh();
    let mut wall_jump = PlayerWallJump { wall_side: Some(WallSide::Left), wall_jumped: true };
    player.move_forbid_set.insert(AbilityId::WallJump);
    player.move_forbid_set.insert(AbilityId::Dash);

    wall_jump_collision_system(&vec![contact(Collision::Left), contact(Collision::Right)], &mut wall_jump, &mut player);
    assert_eq!(wall_jump, PlayerWallJump { wall_side: Some(WallSide::Right), wall_jumped: true });
    assert!(player.move_forbid_set.contains(AbilityId::WallJump));

    wall_jump_collision_system(&vec![], &mut wall_jump, &mut player);
    assert_eq!(wall_jump, PlayerWallJump { wall_side: None, wall_jumped: true });

    // landing ends the jump; the wall touched after it is remembered
    wall_jump_collision_system(&vec![contact(Collision::Top), contact(Collision::Left)], &mut wall_jump, &mut player);
    assert_eq!(wall_jump, PlayerWallJump { wall_side: Some(WallSide::Left), wall_jumped: false });
    assert!(!player.move_forbid_set.contains(AbilityId::WallJump));
    assert!(player.move_forbid_set.contains(AbilityId::Dash));

    wall_jump_collision_system(&vec![contact(Collision::Left), contact(Collision::Bottom)], &mut wall_jump, &mut player);
    assert_eq!(wall_jump.wall_side, None);
}

#[test]
fn crouch_in_the_air_falls_fast() {
    let (mut player, mut gravity) = fresh();
    let mut crouch = PlayerCrouch::default();
    assert_eq!(crouch.state, CrouchState::NotCrouching);
    assert_eq!(CrouchState::default(), CrouchState::NotCrouching);
    let mut size = Vector::splat(1);
    let inventory = PlayerInventory::new_with(AbilityId::Crouch, AbilityId::Empty);
    player.velocity = Vector::new(3500, 900);
    gravity.velocity = Vector::new(0, -70);

    player_crouch_system(&mut gravity, &mut crouch, &mut player, &mut size, &inventory, NONE);
    assert_eq!(crouch.state, CrouchState::NotCrouching);
    assert_eq!(size, Vector::splat(16000));
    assert_eq!(player.velocity, Vector::new(3500, 900));

    player_crouch_system(&mut gravity, &mut crouch, &mut player, &mut size, &inventory, LEFT);
    assert_eq!(crouch.state, CrouchState::Airborne);
    assert_eq!(size, Vector::splat(4000));
    assert_eq!(player.velocity, Vector::new(0, -210));
    assert_eq!(gravity.velocity, Vector::zero());

    player.velocity.x = 50;
    player_crouch_system(&mut gravity, &mut crouch, &mut player, &mut size, &inventory, LEFT);
    assert_eq!(player.velocity, Vector::new(0, -420));
    player.velocity.y = -26900;
    player_crouch_system(&mut gravity, &mut crouch, &mut player, &mut size, &inventory, NONE);
    assert_eq!(player.velocity.y, -27000);
    player_crouch_system(&mut gravity, &mut crouch, &mut player, &mut size, &inventory, NONE);
    assert_eq!(player.velocity.y, -27000);
}

#[test]
fn crouch_on_the_ground() {
    let (mut player, mut gravity) = fresh();
    let mut crouch = PlayerCrouch { state: CrouchState::Grounded };
    let mut size = Vector::splat(16000);
    let inventory = PlayerInventory::new_with(AbilityId::Empty, AbilityId::Crouch);
    player.velocity = Vector::new(-3501, 40);
    gravity.velocity = Vector::new(0, -140);

    player_crouch_system(&mut gravity, &mut crouch, &mut player, &mut size, &inventory, LEFT);
    assert_eq!(crouch.state, CrouchState::Grounded);
    assert_eq!(size, Vector::splat(4000));
    assert!(!player.can_jump);
    assert_eq!(player.velocity, Vector::new(-1750, 0));
    assert_eq!(gravity.velocity, Vector::new(0, -140));

    player_crouch_system(&mut gravity, &mut crouch, &mut player, &mut size, &inventory, RIGHT);
    assert_eq!(crouch.state, CrouchState::NotCrouching);
    assert_eq!(size, Vector::splat(16000));
    assert!(player.can_jump);
    assert_eq!(player.velocity, Vector::new(-1750, 0));

    // walking off a ledge turns the crouch into a fall, whatever the button does
    crouch.state = CrouchState::Grounded;
    gravity.velocity = Vector::new(0, -141);
    player_crouch_system(&mut gravity, &mut crouch, &mut player, &mut size, &inventory, RIGHT);
    assert_eq!(crouch.state, CrouchState::Airborne);
    assert_eq!(player.velocity, Vector::new(0, -210));
    assert_eq!(gravity.velocity, Vector::zero());
    assert!(!player.can_jump);
}

#[test]
fn crouch_needs_the_ability() {
    let (mut player, mut gravity) = fresh();
    let mut crouch = PlayerCrouch { state: CrouchState::Airborne };
    let mut size = Vector::splat(7);
    player.velocity = Vector::new(1, 2);
    player_crouch_system(&mut gravity, &mut crouch, &mut player, &mut size, &PlayerInventory::new(), LEFT);
    assert_eq!(size, Vector::splat(7));
    assert_eq!(player.velocity, Vector::new(1, 2));
    assert_eq!(crouch.state, CrouchState::Airborne);
}

#[test]
fn a_crouching_landing_breaks_the_ground() {
    let landing = |ground, breakable| Landing {
        event: PlayerLandEvent { player_entity: 1, ground_entity: ground },
        breakable,
    };
    let landings = vec![landing(7, true), landing(8, false), landing(9, true)];

    let mut crouch = PlayerCrouch { state: CrouchState::Airborne };
    assert_eq!(crouch_collision_system(&mut crouch, &landings), vec![7, 9]);
    assert_eq!(crouch.state, CrouchState::Grounded);

    assert_eq!(crouch_collision_system(&mut crouch, &landings), Vec::<u64>::new());
    assert_eq!(crouch.state, CrouchState::Grounded);

    let mut standing = PlayerCrouch::default();
    assert_eq!(crouch_collision_system(&mut standing, &landings), Vec::<u64>::new());
    assert_eq!(standing.state, CrouchState::NotCrouching);

    let mut airborne = PlayerCrouch { state: CrouchState::Airborne };
    assert_eq!(crouch_collision_system(&mut airborne, &vec![]), Vec::<u64>::new());
    assert_eq!(airborne.state, CrouchState::Airborne);
}

#[test]
fn dash_runs_its_course() {
    let (mut player, mut gravity) = fresh();
    let mut dash = PlayerDash::default();
    assert_eq!(dash.last_dash, None);
    let inventory = PlayerInventory::new_with(AbilityId::Dash, AbilityId::Empty);
    player.velocity = Vector::new(3500, 40);
    gravity.velocity = Vector::new(1, -70);

    // the wrong button starts nothing
    player_dash_system(RIGHT, &mut dash, &mut player, &mut gravity, &inventory, 1000);
    assert_eq!(dash.last_dash, None);
    assert_eq!(player.velocity, Vector::new(3500, 40));

    player_dash_system(LEFT, &mut dash, &mut player, &mut gravity, &inventory, 1000);
    assert_eq!(dash.last_dash, Some(1000));
    assert_eq!(player.velocity, Vector::new(8000, 0));
    assert_eq!(gravity.velocity, Vector::new(1, 0));
    assert!(player.move_forbid_set.contains(AbilityId::Dash));

    // the dash goes on without the button, for its duration
    gravity.velocity.y = -70;
    player_dash_system(NONE, &mut dash, &mut player, &mut gravity, &inventory, 1150);
    assert_eq!(player.velocity, Vector::new(8000, 0));
    assert_eq!(gravity.velocity.y, 0);
    assert!(player.move_forbid_set.contains(AbilityId::Dash));

    player_dash_system(LEFT, &mut dash, &mut player, &mut gravity, &inventory, 1151);
    assert!(!player.move_forbid_set.contains(AbilityId::Dash));
    assert_eq!(dash.last_dash, Some(1000));
    assert_eq!(player.velocity, Vector::new(8000, 0));

    // no new dash before the interval is over
    player.velocity = Vector::new(-3500, 0);
    player_dash_system(LEFT, &mut dash, &mut player, &mut gravity, &inventory, 2500);
    assert_eq!(dash.last_dash, Some(1000));
    assert_eq!(player.velocity, Vector::new(-3500, 0));
    player_dash_system(LEFT, &mut dash, &mut player, &mut gravity, &inventory, 2501);
    assert_eq!(dash.last_dash, None);
    player_dash_system(LEFT, &mut dash, &mut player, &mut gravity, &inventory, 2502);
    assert_eq!(dash.last_dash, Some(2502));
    assert_eq!(player.velocity, Vector::new(-8000, 0));
}

#[test]
fn dash_needs_a_direction() {
    let (mut player, mut gravity) = fresh();
    let inventory = PlayerInventory::new_with(AbilityId::Dash, AbilityId::Dash);
    for (x, expected) in [(199, 199), (-199, -199), (0, 0)] {
        let mut dash = PlayerDash::default();
        player.velocity = Vector::new(x, 40);
        gravity.velocity = Vector::new(0, -70);
        player_dash_system(RIGHT, &mut dash, &mut player, &mut gravity, &inventory, 10);
        assert_eq!(dash.last_dash, Some(10));
        assert_eq!(player.velocity, Vector::new(expected, 40));
        assert_eq!(gravity.velocity, Vector::new(0, -70));
        assert!(player.move_forbid_set.is_empty());
    }
    // exactly at the threshold the player stops rising and steering, at the old speed
    let mut dash = PlayerDash::default();
    player.velocity = Vector::new(200, 40);
    player_dash_system(RIGHT, &mut dash, &mut player, &mut gravity, &inventory, 10);
    assert_eq!(player.velocity, Vector::new(200, 0));
    assert!(player.move_forbid_set.contains(AbilityId::Dash));
}
