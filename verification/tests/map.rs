use platformer_core::asset_loaders::{AssetLoadError, TileImage};
use platformer_core::collision::{Collider, Collision, CollisionEvent, CollisionFilter};
use platformer_core::map::color::color_hex;
use platformer_core::map::connections::{
    connection_arrival, connection_collision_system, Connection, Transition,
};
use platformer_core::map::layers::{colliders_of_layer, load_collision_layer, ColliderSpawn};
use platformer_core::map::layout::RoomLayout;
use platformer_core::map::tiles::{load_layer, Layer, TileSpawn};
use platformer_core::map::{
    ConnectionSide, LayerFile, LayerPlan, LoadMapError, LoadRoomConfig, MapConfig, MapManager, PlayerSpawnPoint,
    PreviousRoom, Room, RoomConfig, SectionChoice, SectionConfig, TileConfig,
};
use platformer_core::physics::VelocityMap;
use platformer_core::player::PlayerSpawn;
use platformer_core::player::abilities::collectibles::CollectibleAbilityTrigger;
use platformer_core::player::abilities::{AbilityDescriptor, AbilityId, AbilityItem};
use platformer_core::string_map::StringMap;
use platformer_core::vector::{Vector, TILE_SIZE, UNIT};

const CLEAR: [u8; 4] = [0, 0, 0, 0];
const RED: [u8; 4] = [255, 0, 0, 255];
const GREEN: [u8; 4] = [0, 255, 0, 255];
const BLUE: [u8; 4] = [0, 0, 255, 255];
const DOOR: [u8; 4] = [0x12, 0xab, 0xef, 255];

/// An image from rows of pixels, the top row first.
fn picture(rows: &[&[[u8; 4]]]) -> TileImage {
    let height = rows.len() as u32;
    let width = rows.first().map_or(0, |row| row.len()) as u32;
    let mut raw = Vec::new();
    for row in rows {
        for pixel in row.iter() {
            raw.extend_from_slice(pixel);
        }
    }
    TileImage::from_raw(width, height, raw).expect("rows of one length")
}

fn png_of(rows: &[&[[u8; 4]]]) -> Vec<u8> {
    let height = rows.len() as u32;
    let width = rows.first().map_or(0, |row| row.len()) as u32;
    let mut raw = Vec::new();
    for row in rows {
        for pixel in row.iter() {
            raw.extend_from_slice(pixel);
        }
    }
    let buffer = image::RgbaImage::from_raw(width, height, raw).expect("rows of one length");
    let mut out = std::io::Cursor::new(Vec::new());
    image::DynamicImage::ImageRgba8(buffer).write_to(&mut out, image::ImageOutputFormat::Png).expect("encodes");
    out.into_inner()
}

fn plain_tile() -> TileConfig {
    TileConfig { sprite: None, zrot: 0, breakable: false, item: None, collision: None, connection: None }
}

fn next_room(room: &str) -> LoadRoomConfig {
    LoadRoomConfig { section: None, room: room.to_string(), variation: None }
}

fn demo_map() -> MapConfig {
    let mut sprites = StringMap::new();
    sprites.insert(
        "wall".to_string(),
        TileConfig {
            sprite: Some("sprites/wall.png".to_string()),
            zrot: 90,
            breakable: true,
            collision: Some(CollisionFilter::top() | CollisionFilter::left()),
            ..plain_tile()
        },
    );
    sprites.insert("fire".to_string(), TileConfig { item: Some(AbilityItem::Fire), ..plain_tile() });
    sprites.insert("water".to_string(), TileConfig { item: Some(AbilityItem::Water), ..plain_tile() });
    sprites.insert("exit_down".to_string(), TileConfig { connection: Some(ConnectionSide::Bottom), ..plain_tile() });
    sprites.insert(
        "exit_left".to_string(),
        TileConfig {
            connection: Some(ConnectionSide::Left),
            collision: Some(CollisionFilter::right()),
            ..plain_tile()
        },
    );
    let mut sections = StringMap::new();
    sections.insert("demo".to_string(), "maps/demo".to_string());
    sections.insert("cave".to_string(), "maps/cave".to_string());
    MapConfig { sprites, sections }
}

fn demo_colors() -> StringMap<String> {
    let mut colors = StringMap::new();
    colors.insert("#ff0000".to_string(), "wall".to_string());
    colors.insert("#00ff00".to_string(), "fire".to_string());
    colors.insert("#12abef".to_string(), "exit_down".to_string());
    colors.insert("#0000ff".to_string(), "ghost".to_string());
    colors
}

fn demo_room() -> RoomConfig {
    let mut connections = StringMap::new();
    connections.insert("#12abef".to_string(), next_room("cellar"));
    let mut collisions = StringMap::new();
    collisions.insert("walls.png".to_string(), true);
    collisions.insert("props.png".to_string(), false);
    RoomConfig {
        layers: vec!["front.png".to_string(), "walls.png".to_string()],
        variations: vec![vec!["props.png".to_string(), "rain.png".to_string()], vec![]],
        connections,
        collisions,
    }
}

#[test]
fn color_keys_are_lower_case_hex() {
    assert_eq!(color_hex(0, 0, 0), "#000000");
    assert_eq!(color_hex(255, 255, 255), "#ffffff");
    assert_eq!(color_hex(0x12, 0xab, 0xef), "#12abef");
    assert_eq!(color_hex(1, 10, 160), "#010aa0");
    for value in 0..=255u8 {
        assert_eq!(color_hex(value, 0, value), format!("#{:02x}{:02x}{:02x}", value, 0, value));
    }
}

#[test]
fn connection_sides_invert() {
    assert_eq!(ConnectionSide::Top.inverse(), ConnectionSide::Bottom);
    assert_eq!(ConnectionSide::Bottom.inverse(), ConnectionSide::Top);
    assert_eq!(ConnectionSide::Left.inverse(), ConnectionSide::Right);
    assert_eq!(ConnectionSide::Right.inverse(), ConnectionSide::Left);
}

#[test]
fn connection_side_matching() {
    let sides = [Collision::Left, Collision::Right, Collision::Top, Collision::Bottom, Collision::Inside];
    for struck in sides.iter() {
        assert_eq!(ConnectionSide::Bottom.matches_collision(struck), *struck == Collision::Top);
        assert_eq!(ConnectionSide::Top.matches_collision(struck), *struck == Collision::Bottom);
        assert_eq!(ConnectionSide::Left.matches_collision(struck), *struck == Collision::Right);
        assert_eq!(ConnectionSide::Right.matches_collision(struck), *struck == Collision::Left);
    }
}

#[test]
fn connection_tiles_trigger_on_their_side_only() {
    let mut manager = demo_manager();
    enter(&mut manager, "hall", 10);
    enter(&mut manager, "attic", 11);
    let door = Connection(next_room("cellar"), ConnectionSide::Bottom);
    let top = CollisionEvent::new(Collision::Top, 1, 7);
    for side in [Collision::Left, Collision::Right, Collision::Bottom, Collision::Inside] {
        let event = CollisionEvent::new(side, 1, 7);
        assert_eq!(connection_collision_system(&event, Some(&door), true, &mut manager), None);
    }
    // only players travel, and only through connections
    assert_eq!(connection_collision_system(&top, Some(&door), false, &mut manager), None);
    assert_eq!(connection_collision_system(&top, None, true, &mut manager), None);
    assert_eq!(manager.room_count(), 2);

    // the room is left where the connection is taken
    assert_eq!(
        connection_collision_system(&top, Some(&door), true, &mut manager),
        Some(Transition {
            despawn: Some(11),
            load_room: next_room("cellar"),
            spawn_direction: ConnectionSide::Top,
        })
    );
    assert_eq!(manager.room_count(), 1);
    assert_eq!(manager.current_room().map(|room| room.entity), Some(10));

    let mut nowhere = demo_manager();
    let taken = connection_collision_system(&top, Some(&door), true, &mut nowhere).unwrap();
    assert_eq!(taken.despawn, None);
    assert_eq!(nowhere.room_count(), 0);
}

#[test]
fn arriving_through_a_connection() {
    let mut map = VelocityMap::new(1);
    let mut carried = PlayerSpawn::new(&mut map);
    let mut position = Vector::new(1, 2);
    let from_above = PlayerSpawnPoint { spawn_dir: ConnectionSide::Top, spawn_point: Vector::new(8 * UNIT, 16 * UNIT) };
    connection_arrival(&from_above, &mut position, &mut carried, 700);
    assert_eq!(position, Vector::new(8 * UNIT, 16 * UNIT));
    assert_eq!(carried.spawn_time, None);
    let from_below = PlayerSpawnPoint { spawn_dir: ConnectionSide::Bottom, spawn_point: Vector::new(3, 4) };
    connection_arrival(&from_below, &mut position, &mut carried, 900);
    assert_eq!(position, Vector::new(3, 4));
    assert_eq!(carried.spawn_time, Some(900));
}

#[test]
fn paired_corner_collision_decoding() {
    // five columns, six rows; corners at (1, 1) and (3, 4) of the image
    let c = CLEAR;
    let image = picture(&[
        &[c, c, c, c, c],
        &[c, RED, c, c, c],
        &[c, c, c, c, c],
        &[c, c, c, c, c],
        &[c, c, c, RED, c],
        &[c, c, c, c, c],
    ]);
    let colliders = colliders_of_layer(&image);
    assert_eq!(
        colliders,
        vec![ColliderSpawn {
            position: Vector::new(16 * UNIT, 20 * UNIT),
            collider: Collider { size: Vector::new(8 * UNIT + 2 * 8 * UNIT, 8 * UNIT + 3 * 8 * UNIT), filter: CollisionFilter::all() },
        }]
    );
}

#[test]
fn a_pair_in_one_tile_row_is_one_tile_high() {
    let c = CLEAR;
    let image = picture(&[&[RED, c, c, RED], &[c, c, c, c]]);
    assert_eq!(
        colliders_of_layer(&image),
        vec![ColliderSpawn {
            position: Vector::new(12 * UNIT, 8 * UNIT),
            collider: Collider { size: Vector::new(32 * UNIT, 8 * UNIT), filter: CollisionFilter::all() },
        }]
    );
}

#[test]
fn pairs_are_kept_apart_by_colour_and_alpha() {
    let c = CLEAR;
    let faint_red = [255, 0, 0, 128];
    let image = picture(&[&[RED, GREEN, faint_red], &[GREEN, RED, faint_red]]);
    // read from the bottom row: green opens, red opens, faint red opens; red closes, green closes, faint closes
    assert_eq!(
        colliders_of_layer(&image),
        vec![
            ColliderSpawn {
                position: Vector::new(4 * UNIT, 4 * UNIT),
                collider: Collider { size: Vector::new(16 * UNIT, 16 * UNIT), filter: CollisionFilter::all() },
            },
            ColliderSpawn {
                position: Vector::new(4 * UNIT, 4 * UNIT),
                collider: Collider { size: Vector::new(16 * UNIT, 16 * UNIT), filter: CollisionFilter::all() },
            },
            ColliderSpawn {
                position: Vector::new(16 * UNIT, 4 * UNIT),
                collider: Collider { size: Vector::new(8 * UNIT, 16 * UNIT), filter: CollisionFilter::all() },
            },
        ]
    );
    assert!(colliders_of_layer(&picture(&[&[c, c], &[c, c]])).is_empty());
}

#[test]
fn a_third_pixel_opens_anew() {
    let image = picture(&[&[RED, RED, RED, RED, RED]]);
    let colliders = colliders_of_layer(&image);
    assert_eq!(colliders.len(), 2);
    assert_eq!(colliders[0].position, Vector::new(4 * UNIT, 0));
    assert_eq!(colliders[1].position, Vector::new(20 * UNIT, 0));
    assert_eq!(colliders_of_layer(&picture(&[&[RED]])), vec![]);
}

#[test]
fn collision_layer_from_a_file() {
    let c = CLEAR;
    let data = png_of(&[&[c, BLUE], &[BLUE, c]]);
    assert_eq!(
        load_collision_layer(&data),
        Ok(vec![ColliderSpawn {
            position: Vector::new(4 * UNIT, 4 * UNIT),
            collider: Collider { size: Vector::new(16 * UNIT, 16 * UNIT), filter: CollisionFilter::all() },
        }])
    );
    assert_eq!(
        load_collision_layer(b"no image"),
        Err(LoadMapError::LoadError(AssetLoadError::DecodeImageError))
    );
}

#[test]
fn sprite_layer_spawns_one_tile_per_opaque_pixel() {
    let (map, colors, room) = (demo_map(), demo_colors(), demo_room());
    let layer = Layer { room: &room, map: &map, colors: &colors, z_index: -3 };
    let c = CLEAR;
    let image = picture(&[&[c, GREEN, c], &[RED, c, c]]);
    let found = load_layer(&image, &layer, None).expect("every colour is known");
    assert_eq!(found.spawn_point, None);
    assert_eq!(
        found.tiles,
        vec![
            TileSpawn {
                position: Vector::new(0, 0),
                z_index: -3,
                zrot: 90,
                sprite: Some("sprites/wall.png".to_string()),
                collider: Some(Collider { size: Vector::splat(TILE_SIZE), filter: CollisionFilter(0b1001) }),
                breakable: true,
                collectible: None,
                connection: None,
                arrival: None,
            },
            TileSpawn {
                position: Vector::new(8 * UNIT, 8 * UNIT),
                z_index: -3,
                zrot: 0,
                sprite: None,
                collider: None,
                breakable: false,
                collectible: Some(CollectibleAbilityTrigger {
                    size: Vector::new(32 * UNIT, 64 * UNIT),
                    offset: Vector::zero(),
                    ability: AbilityDescriptor { id: AbilityId::Dash },
                }),
                connection: None,
                arrival: None,
            },
        ]
    );
}

#[test]
fn connection_tiles_lie_outside_and_spawn_inside() {
    let (map, colors, room) = (demo_map(), demo_colors(), demo_room());
    let layer = Layer { room: &room, map: &map, colors: &colors, z_index: 0 };
    let c = CLEAR;
    let image = picture(&[&[c, c, c, c], &[c, c, DOOR, DOOR]]);
    let entered_from_below = load_layer(&image, &layer, Some(ConnectionSide::Bottom)).unwrap();
    assert_eq!(entered_from_below.tiles.len(), 2);
    let door = &entered_from_below.tiles[0];
    assert_eq!(door.position, Vector::new(16 * UNIT, -8 * UNIT));
    assert_eq!(door.arrival, Some(Vector::new(16 * UNIT, 8 * UNIT)));
    assert_eq!(door.connection, Some(Connection(next_room("cellar"), ConnectionSide::Bottom)));
    assert_eq!(door.collider, Some(Collider { size: Vector::splat(TILE_SIZE), filter: CollisionFilter::all() }));
    // the first matching tile decides
    assert_eq!(entered_from_below.spawn_point, Some(Vector::new(16 * UNIT, 8 * UNIT)));

    let entered_from_above = load_layer(&image, &layer, Some(ConnectionSide::Top)).unwrap();
    assert_eq!(entered_from_above.spawn_point, None);
    let not_entered = load_layer(&image, &layer, None).unwrap();
    assert_eq!(not_entered.spawn_point, None);
    assert_eq!(not_entered.tiles, entered_from_below.tiles);
}

#[test]
fn connection_offsets_by_side() {
    let map = demo_map();
    let mut colors = StringMap::new();
    colors.insert("#12abef".to_string(), "exit_left".to_string());
    let room = demo_room();
    let layer = Layer { room: &room, map: &map, colors: &colors, z_index: 0 };
    let image = picture(&[&[CLEAR, DOOR]]);
    let found = load_layer(&image, &layer, Some(ConnectionSide::Left)).unwrap();
    assert_eq!(found.tiles[0].position, Vector::new(0, 0));
    assert_eq!(found.tiles[0].arrival, Some(Vector::new(16 * UNIT, 0)));
    assert_eq!(found.spawn_point, Some(Vector::new(16 * UNIT, 0)));
    // the sides that the tile names win over those of a connection
    assert_eq!(
        found.tiles[0].collider,
        Some(Collider { size: Vector::splat(TILE_SIZE), filter: CollisionFilter::right() })
    );
}

#[test]
fn sprite_layer_faults() {
    let (map, colors, mut room) = (demo_map(), demo_colors(), demo_room());
    let c = CLEAR;
    {
        let layer = Layer { room: &room, map: &map, colors: &colors, z_index: 0 };
        let unknown_colour = picture(&[&[RED, [1, 2, 3, 255]]]);
        assert_eq!(
            load_layer(&unknown_colour, &layer, None),
            Err(LoadMapError::InvalidColor("#010203".to_string()))
        );
        let unknown_sprite = picture(&[&[c, BLUE]]);
        assert_eq!(load_layer(&unknown_sprite, &layer, None), Err(LoadMapError::InvalidSprite("ghost".to_string())));
        // the first fault in reading order is reported: the bottom row is read first
        let both = picture(&[&[[1, 2, 3, 255], c], &[c, BLUE]]);
        assert_eq!(load_layer(&both, &layer, None), Err(LoadMapError::InvalidSprite("ghost".to_string())));
        let both = picture(&[&[[1, 2, 3, 255], BLUE]]);
        assert_eq!(load_layer(&both, &layer, None), Err(LoadMapError::InvalidColor("#010203".to_string())));
        // alpha does not take part in the colour key
        let faint = picture(&[&[[255, 0, 0, 1]]]);
        assert_eq!(load_layer(&faint, &layer, None).unwrap().tiles.len(), 1);
    }
    room.connections = StringMap::new();
    let layer = Layer { room: &room, map: &map, colors: &colors, z_index: 0 };
    assert_eq!(
        load_layer(&picture(&[&[DOOR]]), &layer, None),
        Err(LoadMapError::UnsetConnection("#12abef".to_string()))
    );
}

#[test]
fn active_layers_stack_backward() {
    let room = demo_room();
    assert!(room.has_variation(None));
    assert!(room.has_variation(Some(0)));
    assert!(room.has_variation(Some(1)));
    assert!(!room.has_variation(Some(2)));
    assert!(room.can_plan(Some(0)));
    assert!(!room.can_plan(Some(2)));
    assert_eq!(
        room.active_layers(None),
        vec![
            LayerPlan { name: "front.png".to_string(), z_index: 0, collision_only: false },
            LayerPlan { name: "walls.png".to_string(), z_index: -1, collision_only: true },
        ]
    );
    assert_eq!(
        room.active_layers(Some(0)),
        vec![
            LayerPlan { name: "front.png".to_string(), z_index: 0, collision_only: false },
            LayerPlan { name: "walls.png".to_string(), z_index: -1, collision_only: true },
            LayerPlan { name: "props.png".to_string(), z_index: -2, collision_only: false },
            LayerPlan { name: "rain.png".to_string(), z_index: -3, collision_only: false },
        ]
    );
    assert_eq!(room.active_layers(Some(1)), room.active_layers(None));
}

#[test]
fn layout_collects_layers_in_order() {
    let (map, colors, room) = (demo_map(), demo_colors(), demo_room());
    let plans = room.active_layers(Some(0));
    let c = CLEAR;
    let mut layout = RoomLayout::new();
    assert_eq!(layout, RoomLayout { colliders: vec![], tiles: vec![], spawn_point: None });

    let front = picture(&[&[RED, c], &[c, DOOR]]);
    layout.add_layer(&front, &plans[0], &room, &map, &colors, Some(ConnectionSide::Bottom)).unwrap();
    assert_eq!(layout.tiles.len(), 2);
    assert_eq!(layout.tiles[0].z_index, 0);
    assert_eq!(layout.spawn_point, Some(Vector::new(8 * UNIT, 8 * UNIT)));
    assert!(layout.colliders.is_empty());

    // the walls layer is collision-only: its pixels are corners, not tiles
    let walls = png_of(&[&[BLUE, BLUE]]);
    layout.add_layer_file(&walls, &plans[1], &room, &map, &colors, Some(ConnectionSide::Bottom)).unwrap();
    assert_eq!(layout.tiles.len(), 2);
    assert_eq!(layout.colliders.len(), 1);
    assert_eq!(layout.colliders[0].collider.size, Vector::new(16 * UNIT, 8 * UNIT));

    // a later connection tile does not move the spawn point
    let props = picture(&[&[DOOR, GREEN]]);
    layout.add_layer(&props, &plans[2], &room, &map, &colors, Some(ConnectionSide::Bottom)).unwrap();
    assert_eq!(layout.tiles.len(), 4);
    assert_eq!(layout.tiles[2].z_index, -2);
    assert_eq!(layout.spawn_point, Some(Vector::new(8 * UNIT, 8 * UNIT)));

    let kept = layout.clone();
    let broken = picture(&[&[GREEN, BLUE]]);
    assert_eq!(
        layout.add_layer(&broken, &plans[3], &room, &map, &colors, Some(ConnectionSide::Bottom)),
        Err(LoadMapError::InvalidSprite("ghost".to_string()))
    );
    assert_eq!(layout, kept);
    assert_eq!(
        layout.add_layer_file(b"junk", &plans[3], &room, &map, &colors, None),
        Err(LoadMapError::LoadError(AssetLoadError::DecodeImageError))
    );
    assert_eq!(layout, kept);
}

#[test]
fn spawn_point_comes_from_the_first_layer_that_has_one() {
    let (map, colors, room) = (demo_map(), demo_colors(), demo_room());
    let plans = room.active_layers(Some(0));
    let mut layout = RoomLayout::new();
    layout.add_layer(&picture(&[&[RED]]), &plans[0], &room, &map, &colors, Some(ConnectionSide::Bottom)).unwrap();
    assert_eq!(layout.spawn_point, None);
    layout
        .add_layer(&picture(&[&[CLEAR, DOOR]]), &plans[2], &room, &map, &colors, Some(ConnectionSide::Bottom))
        .unwrap();
    assert_eq!(layout.spawn_point, Some(Vector::new(8 * UNIT, 8 * UNIT)));
}

fn demo_manager() -> MapManager {
    MapManager::load_map(demo_map(), "demo".to_string(), SectionConfig { colors: demo_colors() })
}

fn bare_room() -> RoomConfig {
    RoomConfig { layers: vec![], variations: vec![], connections: StringMap::new(), collisions: StringMap::new() }
}

/// Loads a room without layers.
fn enter(manager: &mut MapManager, room: &str, entity: u64) {
    let loaded = manager.load_room(next_room(room), None, &bare_room(), &vec![], entity, None).unwrap();
    assert_eq!(loaded.layout, RoomLayout::new());
    assert_eq!(loaded.spawn, None);
}

fn demo_files() -> Vec<LayerFile> {
    let unlisted = [9, 9, 9, 255];
    vec![
        Ok(picture(&[&[RED, CLEAR]])),
        // collision-only: colours that the legend does not list are corners all the same
        Ok(picture(&[&[unlisted, unlisted]])),
        Ok(picture(&[&[CLEAR, GREEN]])),
        Ok(picture(&[&[CLEAR, CLEAR]])),
    ]
}

#[test]
fn load_room_decodes_the_layers_in_plan_order() {
    let mut manager = demo_manager();
    let request = LoadRoomConfig { variation: Some(0), ..next_room("hall") };
    let room = demo_room();
    let (section, files) = (None, demo_files());
    let expected = manager.room_layout(&request, &section, &room, &files, None).unwrap();
    assert_eq!(manager.room_count(), 0);

    let loaded = manager.load_room(request, section, &room, &files, 10, None).unwrap();
    assert_eq!(loaded.spawn, None);
    assert_eq!(loaded.layout, expected);
    // the room's own layers first, then the variation's, each one further back
    assert_eq!(loaded.layout.tiles.len(), 2);
    assert_eq!(loaded.layout.tiles[0].z_index, 0);
    assert_eq!(loaded.layout.tiles[0].sprite, Some("sprites/wall.png".to_string()));
    assert_eq!(loaded.layout.tiles[1].z_index, -2);
    assert_eq!(loaded.layout.tiles[1].position, Vector::new(8 * UNIT, 0));
    assert_eq!(
        loaded.layout.colliders,
        vec![ColliderSpawn {
            position: Vector::new(4 * UNIT, 0),
            collider: Collider { size: Vector::new(16 * UNIT, 8 * UNIT), filter: CollisionFilter::all() },
        }]
    );
    assert_eq!(
        manager.current_room(),
        Some(&Room { id: "hall".to_string(), entity: 10, player_position: None })
    );
    assert_eq!(manager.current_section().name, "demo");

    // without the variation only the room's own layers are decoded
    let plain = vec![Ok(picture(&[&[RED]])), Ok(picture(&[&[CLEAR]]))];
    let loaded = manager.load_room(next_room("hall"), None, &room, &plain, 11, None).unwrap();
    assert_eq!(loaded.layout.tiles.len(), 1);
    assert!(loaded.layout.colliders.is_empty());
    assert_eq!(manager.room_count(), 2);
}

#[test]
fn load_room_wants_a_listed_section() {
    let mut manager = demo_manager();
    enter(&mut manager, "hall", 10);
    let missing = LoadRoomConfig { section: Some("moon".to_string()), ..next_room("crater") };
    let descriptor = Some(SectionConfig { colors: StringMap::new() });
    assert_eq!(
        manager.room_layout(&missing, &descriptor, &bare_room(), &vec![], None),
        Err(LoadMapError::SectionNotFoundError("moon".to_string()))
    );
    assert_eq!(
        manager.load_room(missing, descriptor, &bare_room(), &vec![], 11, None),
        Err(LoadMapError::SectionNotFoundError("moon".to_string()))
    );
    assert_eq!(manager.room_count(), 1);
    assert_eq!(manager.current_section().name, "demo");
    assert_eq!(manager.current_section().colors.get("#ff0000"), Some(&"wall".to_string()));
}

#[test]
fn load_room_switches_the_section_first() {
    let mut manager = demo_manager();
    let mut colors = StringMap::new();
    colors.insert("#ff0000".to_string(), "fire".to_string());
    let request = LoadRoomConfig { section: Some("cave".to_string()), ..next_room("pit") };
    let mut room = bare_room();
    room.layers = vec!["front.png".to_string()];
    let files: Vec<LayerFile> = vec![Ok(picture(&[&[RED]]))];
    let loaded =
        manager.load_room(request, Some(SectionConfig { colors }), &room, &files, 10, None).unwrap();
    // red is read by the legend of the new section
    assert_eq!(loaded.layout.tiles[0].sprite, None);
    assert!(loaded.layout.tiles[0].collectible.is_some());
    assert_eq!(manager.current_section().name, "cave");
    assert_eq!(manager.current_section().colors.get("#ff0000"), Some(&"fire".to_string()));
    assert_eq!(manager.map().sections.get("demo"), Some(&"maps/demo".to_string()));

    // a room that names the current section, or none, stays in it, whatever descriptor comes along
    let stray = Some(SectionConfig { colors: demo_colors() });
    let same = LoadRoomConfig { section: Some("cave".to_string()), ..next_room("pit") };
    manager.load_room(same, stray, &room, &files, 11, None).unwrap();
    assert_eq!(manager.current_section().colors.get("#ff0000"), Some(&"fire".to_string()));
    manager.load_room(next_room("pit"), None, &room, &files, 12, None).unwrap();
    assert_eq!(manager.current_section().name, "cave");
    assert_eq!(manager.room_count(), 3);
}

#[test]
fn load_room_reports_the_first_layer_that_fails() {
    let mut manager = demo_manager();
    let room = demo_room();
    let files: Vec<LayerFile> = vec![
        Ok(picture(&[&[RED]])),
        Err(AssetLoadError::NotFound("maps/demo/hall/walls.png".to_string())),
        Ok(picture(&[&[BLUE]])),
        Ok(picture(&[&[CLEAR]])),
    ];
    let request = LoadRoomConfig { variation: Some(0), ..next_room("hall") };
    assert_eq!(
        manager.load_room(request, None, &room, &files, 10, None),
        Err(LoadMapError::LoadError(AssetLoadError::NotFound("maps/demo/hall/walls.png".to_string())))
    );
    assert_eq!(manager.room_count(), 0);

    // the section is switched before the layers are decoded, and stays so
    let files: Vec<LayerFile> = vec![Ok(picture(&[&[RED]])), Ok(picture(&[&[CLEAR]]))];
    let request = LoadRoomConfig { section: Some("cave".to_string()), ..next_room("pit") };
    assert_eq!(
        manager.load_room(request, Some(SectionConfig { colors: StringMap::new() }), &room, &files, 10, None),
        Err(LoadMapError::InvalidColor("#ff0000".to_string()))
    );
    assert_eq!(manager.room_count(), 0);
    assert_eq!(manager.current_section().name, "cave");
}

#[test]
fn load_map_starts_without_rooms() {
    let manager = demo_manager();
    assert_eq!(manager.room_count(), 0);
    assert_eq!(manager.current_room(), None);
    assert_eq!(manager.current_section().name, "demo");
    assert_eq!(manager.current_section().colors.get("#ff0000"), Some(&"wall".to_string()));
    assert_eq!(manager.map().sections.get("cave"), Some(&"maps/cave".to_string()));
}

#[test]
fn select_section_follows_the_override() {
    let mut manager = demo_manager();
    assert_eq!(
        manager.select_section(&next_room("hall")),
        Ok(SectionChoice { path: "maps/demo".to_string(), switch_to: None })
    );
    let same = LoadRoomConfig { section: Some("demo".to_string()), ..next_room("hall") };
    assert_eq!(
        manager.select_section(&same),
        Ok(SectionChoice { path: "maps/demo".to_string(), switch_to: None })
    );
    let other = LoadRoomConfig { section: Some("cave".to_string()), ..next_room("pit") };
    assert_eq!(
        manager.select_section(&other),
        Ok(SectionChoice { path: "maps/cave".to_string(), switch_to: Some("cave".to_string()) })
    );
    let missing = LoadRoomConfig { section: Some("moon".to_string()), ..next_room("crater") };
    assert_eq!(manager.select_section(&missing), Err(LoadMapError::SectionNotFoundError("moon".to_string())));

    manager.switch_section("cave".to_string(), SectionConfig { colors: StringMap::new() });
    assert_eq!(manager.current_section().name, "cave");
    assert_eq!(manager.current_section().colors.get("#ff0000"), None);
    assert_eq!(
        manager.select_section(&next_room("pit")),
        Ok(SectionChoice { path: "maps/cave".to_string(), switch_to: None })
    );
    assert_eq!(
        manager.select_section(&same),
        Ok(SectionChoice { path: "maps/demo".to_string(), switch_to: Some("demo".to_string()) })
    );
}

#[test]
fn room_stack_discipline() {
    let mut manager = demo_manager();
    enter(&mut manager, "hall", 10);
    manager.remember_position(Vector::new(5, 6));
    let before = manager.current_room().cloned();
    assert_eq!(before, Some(Room { id: "hall".to_string(), entity: 10, player_position: Some(Vector::new(5, 6)) }));
    assert_eq!(manager.room_count(), 1);

    let mut cellar = demo_room();
    cellar.layers = vec!["front.png".to_string()];
    let files: Vec<LayerFile> = vec![Ok(picture(&[&[CLEAR, DOOR]]))];
    let entered = Some(ConnectionSide::Bottom);
    assert_eq!(
        manager.room_layout(&next_room("cellar"), &None, &cellar, &files, entered).unwrap().spawn_point,
        Some(Vector::new(8 * UNIT, 8 * UNIT))
    );
    let loaded = manager.load_room(next_room("cellar"), None, &cellar, &files, 11, entered).unwrap();
    assert_eq!(
        loaded.spawn,
        Some(PlayerSpawnPoint { spawn_dir: ConnectionSide::Bottom, spawn_point: Vector::new(8 * UNIT, 8 * UNIT) })
    );
    assert_eq!(manager.room_count(), 2);
    assert_eq!(manager.current_room().map(|room| room.entity), Some(11));

    let previous = manager.load_previous_room();
    assert_eq!(previous, PreviousRoom { despawned: Some(11), spawn_point: Some(Vector::new(5, 6)) });
    assert_eq!(manager.room_count(), 1);
    assert_eq!(manager.current_room().cloned(), before);

    assert_eq!(manager.load_previous_room(), PreviousRoom { despawned: Some(10), spawn_point: None });
    assert_eq!(manager.room_count(), 0);
    assert_eq!(manager.load_previous_room(), PreviousRoom { despawned: None, spawn_point: None });
    assert_eq!(manager.room_count(), 0);
}

#[test]
fn leave_room_hands_out_the_current_room() {
    let mut manager = demo_manager();
    assert_eq!(manager.leave_room(), None);
    manager.remember_position(Vector::new(1, 1));
    assert_eq!(manager.room_count(), 0);
    enter(&mut manager, "hall", 10);
    enter(&mut manager, "attic", 12);
    assert_eq!(manager.leave_room(), Some(Room { id: "attic".to_string(), entity: 12, player_position: None }));
    assert_eq!(manager.leave_room(), Some(Room { id: "hall".to_string(), entity: 10, player_position: None }));
    assert_eq!(manager.leave_room(), None);
}

#[test]
fn map_errors_in_words() {
    assert_eq!(
        LoadMapError::LoadError(AssetLoadError::InvalidPath).message(),
        "Error to load asset: The given path was invalid unicode"
    );
    assert_eq!(LoadMapError::TomlParseError("line 3".to_string()).message(), "Error to parse toml file line 3");
    assert_eq!(
        LoadMapError::InvalidColor("#010203".to_string()).message(),
        "The color in the image could not be found its corresponding config file: #010203"
    );
    assert_eq!(
        LoadMapError::InvalidSprite("ghost".to_string()).message(),
        "The color assigned sprite could not be found in the config file: ghost"
    );
    assert_eq!(
        LoadMapError::SectionNotFoundError("moon".to_string()).message(),
        "The given section could not be found: moon"
    );
    assert_eq!(
        LoadMapError::UnsetConnection("#12abef".to_string()).message(),
        "The room lists no connection for the tile of color: #12abef"
    );
}
