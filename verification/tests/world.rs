use platformer_core::checkpoint::{checkpoint_system, CheckpointKind, CheckpointOutcome};
use platformer_core::collision::{Collision, CollisionEvent, MoveableCollider};
use platformer_core::combat::{move_projectile_system, Projectile};
use platformer_core::enemies::slime::{slime_run_system, slime_turn_around_system, GreenSlime};
use platformer_core::enemies::{enemy_die_system, EnemyHealth};
use platformer_core::geometry::overlaps;
use platformer_core::map::{LoadRoomConfig, MapConfig, MapManager, RoomConfig, SectionConfig};
use platformer_core::physics::{VelocityError, VelocityMap};
use platformer_core::player::abilities::collectibles::{
    collect_ability_system, reaches, CollectibleAbilityTrigger, Collecting,
};
use platformer_core::player::abilities::{
    player_shoot_system, player_shot_collision_system, AbilityDescriptor, AbilityId, EquipSlot, MouseInput,
    PlayerInventory, PlayerShoot, PlayerShotProjectile, ShotOutcome, Wall,
};
use platformer_core::string_map::StringMap;
use platformer_core::vector::Vector;

#[test]
fn boxes_overlap_with_positive_area() {
    let size = Vector::splat(10);
    assert!(overlaps(Vector::new(0, 0), size, Vector::new(9, 9), size));
    assert!(overlaps(Vector::new(0, 0), size, Vector::new(-9, 9), size));
    // boxes that only touch do not overlap
    assert!(!overlaps(Vector::new(0, 0), size, Vector::new(10, 0), size));
    assert!(!overlaps(Vector::new(0, 0), size, Vector::new(0, -10), size));
    assert!(!overlaps(Vector::new(0, 0), size, Vector::new(9, 10), size));
    // odd extents are exact: a box of width 3 at 0 spans -1.5 to 1.5
    assert!(overlaps(Vector::new(0, 0), Vector::new(3, 3), Vector::new(2, 0), Vector::new(2, 2)));
    assert!(!overlaps(Vector::new(0, 0), Vector::new(3, 3), Vector::new(3, 0), Vector::new(3, 3)));
    assert!(!overlaps(Vector::new(0, 0), Vector::zero(), Vector::new(0, 0), Vector::zero()));
    assert!(overlaps(Vector::new(0, 0), Vector::zero(), Vector::new(0, 0), Vector::splat(2)));
    assert!(overlaps(
        Vector::new(i32::MAX, i32::MIN),
        Vector::splat(i32::MAX),
        Vector::new(i32::MAX, i32::MIN),
        Vector::splat(i32::MAX)
    ));
}

#[test]
fn enemy_health_never_goes_below_none() {
    let health = EnemyHealth::new(8);
    assert_eq!(health.0, 8);
    assert!(!enemy_die_system(&health));
    assert_eq!(health - 3, EnemyHealth(5));
    assert_eq!(health - 8, EnemyHealth(0));
    assert_eq!(health - 9, EnemyHealth(0));
    let mut hurt = health;
    hurt.hit(7);
    assert_eq!(hurt, EnemyHealth(1));
    assert!(!enemy_die_system(&hurt));
    hurt.hit(u32::MAX);
    assert_eq!(hurt, EnemyHealth(0));
    assert!(enemy_die_system(&hurt));
}

#[test]
fn slimes_walk_and_turn() {
    let mut map = VelocityMap::new(1);
    let spawn = GreenSlime::spawn_at(&mut map, Vector::new(16000, 8000));
    assert_eq!(spawn.position, Vector::new(16000, 12000));
    assert_eq!(
        spawn.collider,
        MoveableCollider { size: Vector::new(8000, 16000), collision_offset: Vector::zero() }
    );
    assert_eq!(spawn.health, EnemyHealth(8));
    assert_eq!(GreenSlime::sprite_path(), "sprites/enemies/slime.png");
    let mut slime = spawn.slime;
    assert!(slime.walking_left);
    map.set(slime.vel_id, Vector::new(0, -70)).unwrap();

    assert_eq!(slime_run_system(&slime, &mut map), Ok(false));
    assert_eq!(map.get(slime.vel_id), Some(Vector::new(-1000, -70)));

    slime_turn_around_system(&mut slime, &CollisionEvent::new(Collision::Top, 3, 7));
    assert!(slime.walking_left);
    slime_turn_around_system(&mut slime, &CollisionEvent::new(Collision::Right, 3, 7));
    assert!(!slime.walking_left);
    assert_eq!(slime_run_system(&slime, &mut map), Ok(true));
    assert_eq!(map.get(slime.vel_id), Some(Vector::new(1000, -70)));
    slime_turn_around_system(&mut slime, &CollisionEvent::new(Collision::Left, 3, 7));
    assert!(slime.walking_left);

    let mut empty = VelocityMap::new(2);
    assert_eq!(slime_run_system(&slime, &mut empty), Err(VelocityError::NotFound));
    let second = GreenSlime::new(&mut map);
    assert_ne!(second.vel_id, slime.vel_id);
}

#[test]
fn projectiles_find_their_slot() {
    let mut map = VelocityMap::new(1);
    map.register();
    let mut projectile = Projectile { direction: Vector::new(600, -800), speed: 5500, vel_id: None };
    move_projectile_system(&mut map, &mut projectile);
    let id = projectile.vel_id.expect("a slot was registered");
    assert_eq!(map.get(id), Some(Vector::new(3300, -4400)));

    projectile.speed = 1001;
    move_projectile_system(&mut map, &mut projectile);
    assert_eq!(projectile.vel_id, Some(id));
    // rounded toward zero
    assert_eq!(map.get(id), Some(Vector::new(600, -800)));
    assert_eq!(map.net_velocity(), Some(Vector::new(600, -800)));

    // a slot of another map does not count
    let mut fresh = VelocityMap::new(2);
    move_projectile_system(&mut fresh, &mut projectile);
    assert_ne!(projectile.vel_id, Some(id));
    assert_eq!(fresh.get(projectile.vel_id.unwrap()), Some(Vector::new(600, -800)));

    let mut fast = Projectile { direction: Vector::new(i32::MAX, i32::MIN), speed: i32::MAX, vel_id: None };
    move_projectile_system(&mut fresh, &mut fast);
    assert_eq!(fresh.get(fast.vel_id.unwrap()), Some(Vector::new(i32::MAX, i32::MIN)));
}

#[test]
fn shots_are_rationed() {
    let inventory = PlayerInventory::new_with(AbilityId::Shoot, AbilityId::Dash);
    let left = MouseInput { left: true, right: false };
    let right = MouseInput { left: false, right: true };
    let mut shoot = PlayerShoot::new(1000);
    assert!(!player_shoot_system(left, &inventory, &mut shoot, 1449));
    assert_eq!(shoot.last_shot, 1000);
    assert!(!player_shoot_system(right, &inventory, &mut shoot, 5000));
    assert!(player_shoot_system(left, &inventory, &mut shoot, 1450));
    assert_eq!(shoot.last_shot, 1450);
    assert!(!player_shoot_system(left, &inventory, &mut shoot, 1451));
    assert!(!player_shoot_system(left, &inventory, &mut shoot, 0));
    assert!(player_shoot_system(MouseInput { left: true, right: true }, &inventory, &mut shoot, 1900));
}

#[test]
fn shots_break_the_first_wall_they_hit() {
    let shot = PlayerShotProjectile::new(Vector::splat(4000), 100);
    let walls = vec![
        Wall { entity: 7, position: Vector::new(50000, 0), size: Vector::splat(8000), breakable: true },
        Wall { entity: 8, position: Vector::new(0, 0), size: Vector::splat(8000), breakable: false },
        Wall { entity: 9, position: Vector::new(1000, 0), size: Vector::splat(8000), breakable: true },
    ];
    assert_eq!(
        player_shot_collision_system(Vector::new(5000, 0), &shot, &walls, 200),
        ShotOutcome { despawn_shot: true, despawn_wall: None }
    );
    assert_eq!(
        player_shot_collision_system(Vector::new(6500, 0), &shot, &walls, 200),
        ShotOutcome { despawn_shot: true, despawn_wall: Some(9) }
    );
    assert_eq!(
        player_shot_collision_system(Vector::new(20000, 0), &shot, &walls, 30100),
        ShotOutcome { despawn_shot: false, despawn_wall: None }
    );
    assert_eq!(
        player_shot_collision_system(Vector::new(20000, 0), &shot, &walls, 30101),
        ShotOutcome { despawn_shot: true, despawn_wall: None }
    );
    assert_eq!(
        player_shot_collision_system(Vector::new(48000, 0), &shot, &walls, 30101),
        ShotOutcome { despawn_shot: true, despawn_wall: Some(7) }
    );
}

#[test]
fn items_are_collected_in_reach() {
    let trigger = CollectibleAbilityTrigger::new_with_descriptor(
        Vector::new(32000, 64000),
        Vector::new(0, 8000),
        AbilityDescriptor { id: AbilityId::DoubleJump },
    );
    let size = Vector::splat(16000);
    let at = Vector::new(100000, 0);
    assert!(reaches(Vector::new(100000, 40000), size, at, trigger.offset, trigger.size));
    assert!(!reaches(Vector::new(100000, 48000), size, at, trigger.offset, trigger.size));

    let mut inventory = PlayerInventory::new_with(AbilityId::Dash, AbilityId::Shoot);
    let far = collect_ability_system(Vector::zero(), size, at, &trigger, &mut inventory, &vec![EquipSlot::Left]);
    assert_eq!(far, Collecting { in_reach: false, collected: false });
    assert_eq!(inventory, PlayerInventory(AbilityId::Dash, AbilityId::Shoot));

    let idle = collect_ability_system(at, size, at, &trigger, &mut inventory, &vec![]);
    assert_eq!(idle, Collecting { in_reach: true, collected: false });
    assert_eq!(inventory, PlayerInventory(AbilityId::Dash, AbilityId::Shoot));

    let taken = collect_ability_system(at, size, at, &trigger, &mut inventory, &vec![EquipSlot::Right]);
    assert_eq!(taken, Collecting { in_reach: true, collected: true });
    assert_eq!(inventory, PlayerInventory(AbilityId::Dash, AbilityId::DoubleJump));

    let both = vec![EquipSlot::Left, EquipSlot::Right, EquipSlot::Left];
    let mut inventory = PlayerInventory::new();
    collect_ability_system(at, size, at, &trigger, &mut inventory, &both);
    assert_eq!(inventory, PlayerInventory(AbilityId::DoubleJump, AbilityId::DoubleJump));
}

fn manager_with_rooms() -> MapManager {
    let mut sections = StringMap::new();
    sections.insert("demo".to_string(), "maps/demo".to_string());
    let map = MapConfig { sprites: StringMap::new(), sections };
    let mut manager = MapManager::load_map(map, "demo".to_string(), SectionConfig { colors: StringMap::new() });
    enter(&mut manager, "hall", 10);
    enter(&mut manager, "tower", 11);
    manager
}

/// Loads a room without layers.
fn enter(manager: &mut MapManager, room: &str, entity: u64) {
    let bare = RoomConfig {
        layers: vec![],
        variations: vec![],
        connections: StringMap::new(),
        collisions: StringMap::new(),
    };
    let request = LoadRoomConfig { section: None, room: room.to_string(), variation: None };
    manager.load_room(request, None, &bare, &vec![], entity, None).expect("a room without layers loads");
}

fn checkpoint_room() -> LoadRoomConfig {
    LoadRoomConfig { section: None, room: "checkpoint".to_string(), variation: None }
}

#[test]
fn checkpoints_keep_the_room_and_the_place() {
    let mut manager = manager_with_rooms();
    let outcome = checkpoint_system(&mut manager, CheckpointKind::Checkpoint, Vector::new(5, 6));
    assert_eq!(
        outcome,
        CheckpointOutcome {
            despawn: Some(11),
            load_room: Some(checkpoint_room()),
            player_position: Some(Vector::new(120000, 32000)),
        }
    );
    assert_eq!(manager.room_count(), 2);
    assert_eq!(manager.current_room().unwrap().player_position, Some(Vector::new(5, 6)));

    // the checkpoint room is loaded on top, and left again by a return
    enter(&mut manager, "checkpoint", 12);
    let back = checkpoint_system(&mut manager, CheckpointKind::Return, Vector::new(1, 1));
    assert_eq!(
        back,
        CheckpointOutcome { despawn: Some(12), load_room: None, player_position: Some(Vector::new(5, 6)) }
    );
    assert_eq!(manager.room_count(), 2);
    assert_eq!(manager.current_room().unwrap().id, "tower");
}

#[test]
fn resets_forget_the_room() {
    let mut manager = manager_with_rooms();
    let outcome = checkpoint_system(&mut manager, CheckpointKind::Reset, Vector::new(5, 6));
    assert_eq!(
        outcome,
        CheckpointOutcome {
            despawn: Some(11),
            load_room: Some(checkpoint_room()),
            player_position: Some(Vector::new(120000, 32000)),
        }
    );
    assert_eq!(manager.room_count(), 1);
    assert_eq!(manager.current_room().unwrap().id, "hall");
    assert_eq!(manager.current_room().unwrap().player_position, None);

    let back = checkpoint_system(&mut manager, CheckpointKind::Return, Vector::zero());
    assert_eq!(back, CheckpointOutcome { despawn: Some(10), load_room: None, player_position: None });
    let nothing = checkpoint_system(&mut manager, CheckpointKind::Return, Vector::zero());
    assert_eq!(nothing, CheckpointOutcome { despawn: None, load_room: None, player_position: None });
    let from_nowhere = checkpoint_system(&mut manager, CheckpointKind::Checkpoint, Vector::zero());
    assert_eq!(from_nowhere.despawn, None);
    assert_eq!(manager.room_count(), 0);
}
