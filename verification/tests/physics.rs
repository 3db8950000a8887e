use platformer_core::collision::{Collision, CollisionEvent};
use platformer_core::physics::{
    add_gravity_velocity_system, gravity_system, landing_system, velocity_system, Gravity, VelocityError,
    VelocityMap, GRAVITY, GRAVITY_MAX,
};
use platformer_core::vector::Vector;

#[test]
fn new_map_has_no_slots() {
    let mut map = VelocityMap::new(1);
    assert_eq!(map.last_velocity(), Vector::zero());
    assert_eq!(map.net_velocity(), Some(Vector::zero()));
    let (first, _) = map.register();
    let mut other = VelocityMap::new(2);
    assert_eq!(other.get(first), None);
    assert!(other.get_mut(first).is_none());
}

#[test]
fn register_hands_out_a_zero_slot() {
    let mut map = VelocityMap::new(1);
    let (first, slot) = map.register();
    assert_eq!(*slot, Vector::zero());
    *slot = Vector::new(3, -4);
    let (second, slot) = map.register();
    assert_eq!(*slot, Vector::zero());
    assert_ne!(first, second);
    assert_eq!(map.get(first), Some(Vector::new(3, -4)));
    assert_eq!(map.get(second), Some(Vector::zero()));
}

#[test]
fn set_returns_the_previous_value() {
    let mut map = VelocityMap::new(1);
    let (id, _) = map.register();
    assert_eq!(map.set(id, Vector::new(1, 2)).unwrap(), Vector::zero());
    assert_eq!(map.set(id, Vector::new(5, 6)).unwrap(), Vector::new(1, 2));
    assert_eq!(map.get(id), Some(Vector::new(5, 6)));
}

#[test]
fn set_with_a_foreign_id_is_not_found() {
    let mut big = VelocityMap::new(2);
    big.register();
    let (foreign, _) = big.register();
    let mut small = VelocityMap::new(1);
    let (own, _) = small.register();
    let error = small.set(foreign, Vector::new(1, 1)).unwrap_err();
    assert!(matches!(error, VelocityError::NotFound));
    assert_eq!(error.message(), "The id is not inside the velocity map, try to register first");
    assert_eq!(small.get(own), Some(Vector::zero()));
}

#[test]
fn ids_are_good_for_their_own_map_only() {
    let mut mine = VelocityMap::new(1);
    let (own, _) = mine.register();
    mine.set(own, Vector::new(7, 8)).unwrap();
    // the first id of another map names the same place, and is refused all the same
    let mut theirs = VelocityMap::new(2);
    let (foreign, _) = theirs.register();
    assert_ne!(own, foreign);
    assert!(matches!(mine.set(foreign, Vector::new(1, 1)), Err(VelocityError::NotFound)));
    assert_eq!(mine.get(foreign), None);
    assert!(mine.get_mut(foreign).is_none());
    assert_eq!(mine.get(own), Some(Vector::new(7, 8)));
    assert_eq!(theirs.get(foreign), Some(Vector::zero()));
    assert_eq!(theirs.get(own), None);
    assert_eq!(mine.owned_by(), 1);
    assert_eq!(theirs.owned_by(), 2);
}

#[test]
fn get_mut_writes_through() {
    let mut map = VelocityMap::new(1);
    let (id, _) = map.register();
    map.get_mut(id).unwrap().x = 12;
    assert_eq!(map.get(id), Some(Vector::new(12, 0)));
}

#[test]
fn velocity_summation() {
    let mut map = VelocityMap::new(1);
    let (gravity, _) = map.register();
    let (input, _) = map.register();
    let (dash, _) = map.register();
    map.set(gravity, Vector::new(0, -70)).unwrap();
    map.set(input, Vector::new(3500, 0)).unwrap();
    map.set(dash, Vector::new(8000, 10)).unwrap();
    map.set(input, Vector::new(-3500, 0)).unwrap();
    assert_eq!(map.net_velocity(), Some(Vector::new(4500, -60)));
    let moved = velocity_system(Vector::new(100, 200), &mut map);
    assert_eq!(moved, Some(Vector::new(4600, 140)));
    assert_eq!(map.last_velocity(), Vector::new(4500, -60));
    // integration leaves the slots alone
    assert_eq!(map.get(dash), Some(Vector::new(8000, 10)));
    let moved = velocity_system(Vector::new(4600, 140), &mut map);
    assert_eq!(moved, Some(Vector::new(9100, 80)));
}

#[test]
fn integration_refuses_what_cannot_be_represented() {
    let mut map = VelocityMap::new(1);
    let (a, _) = map.register();
    let (b, _) = map.register();
    map.set(a, Vector::new(i32::MAX, 0)).unwrap();
    map.set(b, Vector::new(1, 0)).unwrap();
    assert_eq!(map.net_velocity(), None);
    assert_eq!(velocity_system(Vector::zero(), &mut map), None);
    assert_eq!(map.last_velocity(), Vector::zero());

    map.set(b, Vector::new(0, 0)).unwrap();
    assert_eq!(map.net_velocity(), Some(Vector::new(i32::MAX, 0)));
    assert_eq!(velocity_system(Vector::new(1, 0), &mut map), None);
    assert_eq!(map.last_velocity(), Vector::zero());
    assert_eq!(velocity_system(Vector::new(-1, 0), &mut map), Some(Vector::new(i32::MAX - 1, 0)));

    // a sum whose parts cancel is exact
    map.set(b, Vector::new(i32::MIN, 0)).unwrap();
    assert_eq!(map.net_velocity(), Some(Vector::new(-1, 0)));
}

#[test]
fn gravity_accelerates_to_its_terminal_velocity() {
    let mut map = VelocityMap::new(1);
    let mut gravity = Gravity::new_in(&mut map);
    assert_eq!(gravity.velocity, Vector::zero());
    gravity_system(&mut gravity);
    assert_eq!(gravity.velocity, Vector::new(0, -GRAVITY));
    gravity_system(&mut gravity);
    assert_eq!(gravity.velocity, Vector::new(0, -140));
    gravity.velocity = Vector::new(5, GRAVITY_MAX + 30);
    gravity_system(&mut gravity);
    assert_eq!(gravity.velocity, Vector::new(5, -9000));
    gravity_system(&mut gravity);
    assert_eq!(gravity.velocity, Vector::new(5, -9000));
    gravity.velocity.y = i32::MIN;
    gravity_system(&mut gravity);
    assert_eq!(gravity.velocity.y, GRAVITY_MAX);
}

#[test]
fn gravity_writes_its_own_slot() {
    let mut map = VelocityMap::new(1);
    let (input, _) = map.register();
    let mut gravity = Gravity::new_in(&mut map);
    gravity_system(&mut gravity);
    assert!(add_gravity_velocity_system(&mut map, &gravity).is_ok());
    assert_eq!(map.get(gravity.vel_id), Some(Vector::new(0, -70)));
    assert_eq!(map.get(input), Some(Vector::zero()));

    let mut other = VelocityMap::new(2);
    let result = add_gravity_velocity_system(&mut other, &gravity);
    assert!(matches!(result, Err(VelocityError::NotFound)));
}

#[test]
fn gravity_new_is_at_rest() {
    let mut map = VelocityMap::new(1);
    let (id, _) = map.register();
    let gravity = Gravity::new(id);
    assert_eq!(gravity.vel_id, id);
    assert_eq!(gravity.velocity, Vector::zero());
}

#[test]
fn landing_stops_the_fall() {
    let mut map = VelocityMap::new(1);
    let mut gravity = Gravity::new_in(&mut map);
    gravity.velocity = Vector::new(0, -700);

    let walls = vec![CollisionEvent::new(Collision::Left, 1, 7), CollisionEvent::new(Collision::Bottom, 1, 8)];
    landing_system(&walls, 1, &mut gravity);
    assert_eq!(gravity.velocity, Vector::new(0, -700));

    let someone_else = vec![CollisionEvent::new(Collision::Top, 2, 7)];
    landing_system(&someone_else, 1, &mut gravity);
    assert_eq!(gravity.velocity, Vector::new(0, -700));

    let ground = vec![CollisionEvent::new(Collision::Left, 1, 7), CollisionEvent::new(Collision::Top, 1, 9)];
    landing_system(&ground, 1, &mut gravity);
    assert_eq!(gravity.velocity, Vector::zero());
}
