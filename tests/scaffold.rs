use actor_scaffold::actors::{field_of, Actor, Entry, Field, Position, SceneRef, SchemaError, Value};
use actor_scaffold::gameplay::{
    GamePlayState, InputEvent, Key, MouseButton, Trans, CAMERA_FORWARD_OFFSET, DEFAULT_DEPTH_OF_VIEW,
};
use actor_scaffold::loading::{ActorKind, LoadError, LoadingPhase, LoadingState, ProgressCounter};
use actor_scaffold::registry::{EntityData, EntityId, PrefabHandle, Registry, RegistryError};

fn pos(x: f32, y: f32, z: f32) -> Position {
    Position { x: x.to_bits(), y: y.to_bits(), z: z.to_bits() }
}

fn entry(key: &str, value: Value) -> Entry {
    Entry { key: key.to_string(), value }
}

fn camera_entities(world: &Registry) -> usize {
    let mut n = 0;
    for i in 0..world.slot_count() {
        if let Some(d) = world.get(EntityId { index: i }) {
            if d.camera.is_some() {
                n += 1;
            }
        }
    }
    n
}

#[test]
fn hero_without_mesh_gives_one_entity_and_no_mesh_request() {
    let es = vec![
        entry("name", Value::Text("Hero".to_string())),
        entry("position", Value::Coords(pos(1.0, 2.0, 3.0))),
    ];
    let actor = Actor::from_description(&es).unwrap();
    let mut world = Registry::new();
    let (id, mesh) = actor.instantiate(&mut world);
    assert!(mesh.is_none());
    assert_eq!(world.slot_count(), 1);
    let d = world.get(id).unwrap();
    assert_eq!(d.name.as_deref(), Some("Hero"));
    let p = d.position.unwrap();
    assert_eq!((f32::from_bits(p.x), f32::from_bits(p.y), f32::from_bits(p.z)), (1.0, 2.0, 3.0));
    assert!(d.mesh.is_none());
}

#[test]
fn actor_with_mesh_requests_it() {
    let es = vec![
        entry("name", Value::Text("Orc".to_string())),
        entry("mesh", Value::Scene(SceneRef { path: "mesh/orc.gltf".to_string() })),
        entry("position", Value::Coords(pos(0.0, 0.0, -4.5))),
    ];
    let actor = Actor::from_description(&es).unwrap();
    let mut world = Registry::new();
    let (id, mesh) = actor.instantiate(&mut world);
    assert_eq!(mesh.unwrap().path, "mesh/orc.gltf");
    assert_eq!(world.get(id).unwrap().mesh.as_ref().unwrap().path, "mesh/orc.gltf");
}

#[test]
fn description_round_trip() {
    let a = Actor {
        name: "Monster".to_string(),
        position: pos(-1.5, 0.25, 7.0),
        mesh: Some(SceneRef { path: "mesh/monster.gltf".to_string() }),
    };
    let es = a.to_description();
    assert_eq!(es.len(), 3);
    assert_eq!(es[0].key, "name");
    let b = Actor::from_description(&es).unwrap();
    assert_eq!(b.name, a.name);
    assert_eq!(b.position, a.position);
    assert_eq!(b.mesh.unwrap().path, "mesh/monster.gltf");

    let c = Actor { name: "Hero".to_string(), position: pos(1.0, 2.0, 3.0), mesh: None };
    let d = Actor::from_description(&c.to_description()).unwrap();
    assert_eq!(d.name, "Hero");
    assert_eq!(d.position, c.position);
    assert!(d.mesh.is_none());
}

#[test]
fn unknown_field_is_rejected() {
    let es = vec![
        entry("name", Value::Text("Hero".to_string())),
        entry("position", Value::Coords(pos(1.0, 2.0, 3.0))),
        entry("speed", Value::Text("fast".to_string())),
    ];
    match Actor::from_description(&es) {
        Err(SchemaError::UnknownField(k)) => assert_eq!(k, "speed"),
        other => panic!("unexpected {:?}", other),
    }
}

#[test]
fn schema_errors() {
    let missing_name = vec![entry("position", Value::Coords(pos(1.0, 2.0, 3.0)))];
    assert!(matches!(
        Actor::from_description(&missing_name),
        Err(SchemaError::MissingField(Field::Name))
    ));
    let missing_position = vec![entry("name", Value::Text("Hero".to_string()))];
    assert!(matches!(
        Actor::from_description(&missing_position),
        Err(SchemaError::MissingField(Field::Position))
    ));
    let duplicate = vec![
        entry("name", Value::Text("A".to_string())),
        entry("name", Value::Text("B".to_string())),
    ];
    assert!(matches!(
        Actor::from_description(&duplicate),
        Err(SchemaError::DuplicateField(Field::Name))
    ));
    let wrong = vec![entry("position", Value::Text("here".to_string()))];
    assert!(matches!(
        Actor::from_description(&wrong),
        Err(SchemaError::InvalidType(Field::Position))
    ));
    assert!(matches!(Actor::from_description(&Vec::new()), Err(SchemaError::MissingField(Field::Name))));
}

#[test]
fn field_keys() {
    assert_eq!(field_of(&"name".to_string()), Some(Field::Name));
    assert_eq!(field_of(&"position".to_string()), Some(Field::Position));
    assert_eq!(field_of(&"mesh".to_string()), Some(Field::Mesh));
    assert_eq!(field_of(&"Name".to_string()), None);
}

#[test]
fn pointer_capture_toggles() {
    let world = Registry::new();
    let mut g = GamePlayState::new(&world);
    assert!(!g.hide_cursor);
    assert!(matches!(g.handle_event(InputEvent::MouseButtonPressed(MouseButton::Left)), Trans::Continue));
    assert!(g.hide_cursor);
    g.handle_event(InputEvent::MouseButtonPressed(MouseButton::Right));
    assert!(g.hide_cursor);
    g.handle_event(InputEvent::KeyPressed(Key::Escape));
    assert!(g.hide_cursor);
    g.handle_event(InputEvent::KeyReleased(Key::Escape));
    assert!(!g.hide_cursor);
}

#[test]
fn camera_initialisation_projection() {
    let mut world = Registry::new();
    let mut g = GamePlayState::new(&world);
    assert_eq!(f32::from_bits(g.camera_depth_vision), 1000.0);
    g.initialise_camera(&mut world);
    let cam = world.get(g.camera.unwrap()).unwrap();
    let p = cam.camera.unwrap();
    assert_eq!(f32::from_bits(p.zfar), 1000.0);
    assert_eq!(f32::from_bits(p.znear), 0.1);
    assert_eq!(f32::from_bits(p.aspect), 1.3);
    assert_eq!(f32::from_bits(p.fovy), 1.0471975512);
    let t = cam.transform.unwrap();
    assert_eq!(f32::from_bits(t.translation.z), 2.0);
    assert_eq!(f32::from_bits(t.translation.x), 5.0);
    assert_eq!(f32::from_bits(t.rotation.x), std::f32::consts::PI / 3.0);
    assert_eq!(f32::from_bits(t.rotation.z), std::f32::consts::PI / 2.0);
    assert!(cam.fly_control);
    assert_eq!(g.camera_z, CAMERA_FORWARD_OFFSET);
    assert_eq!(g.camera_depth_vision, DEFAULT_DEPTH_OF_VIEW);
}

#[test]
fn camera_reconfiguration_keeps_one_camera() {
    let mut world = Registry::new();
    let mut g = GamePlayState::new(&world);
    assert_eq!(camera_entities(&world), 0);
    g.on_start(&mut world);
    assert_eq!(camera_entities(&world), 1);
    let first = g.camera.unwrap();
    g.adjust_camera(&mut world);
    g.initialise_camera(&mut world);
    g.adjust_camera(&mut world);
    assert_eq!(camera_entities(&world), 1);
    assert!(world.get(first).is_none());
    assert_eq!(g.camera.unwrap(), EntityId { index: world.slot_count() - 1 });
}

#[test]
fn gameplay_start_adds_white_sun() {
    let mut world = Registry::new();
    let mut g = GamePlayState::new(&world);
    g.on_start(&mut world);
    assert_eq!(world.slot_count(), 2);
    let sun = world.get(EntityId { index: 0 }).unwrap().light.unwrap();
    assert_eq!(f32::from_bits(sun.intensity), 2.0);
    assert_eq!(f32::from_bits(sun.color.x), 1.0);
    assert_eq!(f32::from_bits(sun.direction.y), 0.3);
    assert_eq!(f32::from_bits(sun.direction.z), -1.0);
    assert_eq!(g.camera, Some(EntityId { index: 1 }));
    assert!(matches!(g.update(&world), Trans::Continue));
}

#[test]
fn loading_switches_once_after_both_requests() {
    let mut world = Registry::new();
    let mut s = LoadingState::new();
    let requests = s.on_start(&mut world);
    assert_eq!(requests.len(), 2);
    assert_eq!(requests[0].kind, ActorKind::Player);
    assert_eq!(requests[1].kind, ActorKind::Monster);
    assert_eq!(requests[0].kind.logical_name(), "player");
    assert_eq!(requests[1].kind.logical_name(), "monster");
    assert_eq!(s.avatar_prefab_handle, Some(PrefabHandle { id: 0 }));
    assert_eq!(s.monster_prefab_handle, Some(PrefabHandle { id: 1 }));
    assert_eq!(world.slot_count(), 2);
    assert_eq!(world.get(EntityId { index: 1 }).unwrap().prefab, Some(PrefabHandle { id: 1 }));
    assert_eq!(s.phase, LoadingPhase::WaitingForAssets);

    assert!(matches!(s.update(&world), Ok(Trans::Continue)));
    s.progress_counter.finish_one();
    assert!(matches!(s.update(&world), Ok(Trans::Continue)));
    assert_eq!(s.phase, LoadingPhase::WaitingForAssets);
    s.progress_counter.finish_one();
    match s.update(&world) {
        Ok(Trans::SwitchTo(g)) => {
            assert!(g.camera.is_none());
            assert!(!g.hide_cursor);
        }
        _ => panic!("expected a switch"),
    }
    assert_eq!(s.phase, LoadingPhase::Complete);
    assert!(matches!(s.update(&world), Ok(Trans::Continue)));
    assert!(s.on_start(&mut world).is_empty());
    assert_eq!(world.slot_count(), 2);
}

#[test]
fn loading_failure_is_an_error() {
    let mut world = Registry::new();
    let mut s = LoadingState::new();
    s.on_start(&mut world);
    s.progress_counter.finish_one();
    s.progress_counter.fail_one();
    assert_eq!(s.update(&world).err(), Some(LoadError::AssetsFailed { failed: 1 }));
    assert_eq!(s.phase, LoadingPhase::WaitingForAssets);
}

#[test]
fn progress_counter_counts() {
    let mut c = ProgressCounter::new();
    assert!(c.is_complete());
    assert_eq!(c.register(), 0);
    assert_eq!(c.register(), 1);
    assert!(!c.is_complete());
    c.finish_one();
    assert_eq!(c.num_finished(), 1);
    c.finish_one();
    c.finish_one();
    assert_eq!(c, ProgressCounter { num_assets: 2, num_loading: 0, num_failed: 0 });
    assert!(c.is_complete());
    c.fail_one();
    assert!(c.is_complete());
}

#[test]
fn registry_create_delete() {
    let mut world = Registry::new();
    let a = world.create(EntityData::empty());
    let b = world.create(EntityData::empty());
    assert_eq!(a, EntityId { index: 0 });
    assert_eq!(b, EntityId { index: 1 });
    assert_eq!(world.delete(a), Ok(()));
    assert_eq!(world.delete(a), Err(RegistryError::NotLive(a)));
    assert_eq!(world.delete(EntityId { index: 9 }), Err(RegistryError::NotLive(EntityId { index: 9 })));
    assert!(world.get(a).is_none());
    assert!(world.get(b).is_some());
    let rows = world.entity_rows();
    assert_eq!(rows.len(), 1);
    assert_eq!(rows[0].entity, b);
}

#[test]
fn entity_listing_after_loading() {
    let mut world = Registry::new();
    let mut s = LoadingState::new();
    s.on_start(&mut world);
    let hero = Actor { name: "Hero".to_string(), position: pos(1.0, 2.0, 3.0), mesh: None };
    let m = hero.add_to_entity(&mut world, EntityId { index: 0 });
    assert!(m.is_none());
    let rows = world.entity_rows();
    assert_eq!(rows.len(), 2);
    assert_eq!(rows[0].name.as_deref(), Some("Hero"));
    assert_eq!(rows[0].prefab, Some(PrefabHandle { id: 0 }));
    assert_eq!(rows[0].position, Some(pos(1.0, 2.0, 3.0)));
    assert_eq!(rows[1].name, None);
    assert_eq!(rows[1].prefab, Some(PrefabHandle { id: 1 }));
}

#[test]
fn resolved_description_reaches_its_placeholders() {
    let mut world = Registry::new();
    let mut s = LoadingState::new();
    s.on_start(&mut world);
    let other = world.create(EntityData::empty());
    let monster = Actor {
        name: "Monster".to_string(),
        position: pos(4.0, 0.0, -2.0),
        mesh: Some(SceneRef { path: "mesh/monster.gltf".to_string() }),
    };
    let touched = monster.apply_prefab(&mut world, PrefabHandle { id: 1 });
    assert_eq!(touched, vec![EntityId { index: 1 }]);
    let d = world.get(EntityId { index: 1 }).unwrap();
    assert_eq!(d.name.as_deref(), Some("Monster"));
    assert_eq!(d.position, Some(pos(4.0, 0.0, -2.0)));
    assert_eq!(d.mesh.as_ref().unwrap().path, "mesh/monster.gltf");
    assert_eq!(d.prefab, Some(PrefabHandle { id: 1 }));
    assert!(world.get(EntityId { index: 0 }).unwrap().name.is_none());
    assert!(world.get(other).unwrap().name.is_none());
    assert!(monster.apply_prefab(&mut world, PrefabHandle { id: 7 }).is_empty());
}
