//! The gameplay controller: lights the scene, places the free-fly camera and
//! toggles pointer capture on input.
use vstd::prelude::*;

use crate::registry::{DirectionalLight, EntityData, EntityId, Projection, Registry, Transform, Vector3};

verus! {

/// `0.0f32`.
pub const F32_ZERO: u32 = 0x0000_0000;
/// `1.0f32`.
pub const F32_ONE: u32 = 0x3F80_0000;
/// Intensity of the sun light, `2.0f32`.
pub const LIGHT_INTENSITY: u32 = 0x4000_0000;
/// Y component of the sun direction, `0.3f32`.
pub const LIGHT_DIRECTION_Y: u32 = 0x3E99_999A;
/// Z component of the sun direction, `-1.0f32`.
pub const LIGHT_DIRECTION_Z: u32 = 0xBF80_0000;
/// Camera depth position before the camera is first placed, `8.0f32`.
pub const INITIAL_CAMERA_Z: u32 = 0x4100_0000;
/// Camera depth position once placed, `2.0f32`.
pub const CAMERA_FORWARD_OFFSET: u32 = 0x4000_0000;
/// Default depth of view, `1000.0f32`.
pub const DEFAULT_DEPTH_OF_VIEW: u32 = 0x447A_0000;
/// Lateral offset of the camera, `5.0f32`.
pub const CAMERA_X: u32 = 0x40A0_0000;
/// Camera roll, `PI / 3.0` in `f32`.
pub const CAMERA_ROLL: u32 = 0x3F86_0A92;
/// Camera yaw, `PI / 2.0` in `f32`.
pub const CAMERA_YAW: u32 = 0x3FC9_0FDB;
/// Aspect ratio of the projection, `1.3f32`.
pub const CAMERA_ASPECT: u32 = 0x3FA6_6666;
/// Vertical field of view, `1.0471975512f32` (60 degrees).
pub const CAMERA_FOVY: u32 = 0x3F86_0A92;
/// Near plane, `0.1f32`.
pub const CAMERA_ZNEAR: u32 = 0x3DCC_CCCD;

/// Keys that the controller tells apart.
#[derive(Clone, Copy, Debug, PartialEq, Eq, Structural)]
pub enum Key {
    Escape,
    Other,
}

/// Mouse buttons.
#[derive(Clone, Copy, Debug, PartialEq, Eq, Structural)]
pub enum MouseButton {
    Left,
    Right,
    Middle,
    Other,
}

/// A discrete input event.
#[derive(Clone, Copy, Debug, PartialEq, Eq, Structural)]
pub enum InputEvent {
    KeyPressed(Key),
    KeyReleased(Key),
    MouseButtonPressed(MouseButton),
    MouseButtonReleased(MouseButton),
}

/// What the driver loop does after a controller step.
pub enum Trans {
    /// Stay in the current controller.
    Continue,
    /// Replace the current controller by gameplay.
    SwitchTo(GamePlayState),
}

/// State of the gameplay controller.
pub struct GamePlayState {
    pub paused: bool,
    /// Bit pattern of the `f32` time scale.
    pub desired_time_scale: u32,
    /// The camera entity, if one was placed.
    pub camera: Option<EntityId>,
    /// Bit pattern of the camera's position on the depth axis.
    pub camera_z: u32,
    /// Bit pattern of the depth that the camera can see.
    pub camera_depth_vision: u32,
    /// Whether the pointer is captured (cursor hidden and locked).
    pub hide_cursor: bool,
}

/// The sun: white, of intensity two, shining down the depth axis.
pub open spec fn sun() -> DirectionalLight {
    DirectionalLight {
        color: Vector3 { x: F32_ONE, y: F32_ONE, z: F32_ONE },
        intensity: LIGHT_INTENSITY,
        direction: Vector3 { x: F32_ZERO, y: LIGHT_DIRECTION_Y, z: LIGHT_DIRECTION_Z },
    }
}

/// The entity that carries the sun.
pub open spec fn light_entity() -> EntityData {
    EntityData { light: Some(sun()), ..EntityData::spec_empty() }
}

/// The camera entity placed at depth `z`, seeing up to `depth`.
pub open spec fn camera_entity(z: u32, depth: u32) -> EntityData {
    EntityData {
        transform: Some(
            Transform {
                translation: Vector3 { x: CAMERA_X, y: F32_ZERO, z: z },
                rotation: Vector3 { x: CAMERA_ROLL, y: F32_ZERO, z: CAMERA_YAW },
            },
        ),
        camera: Some(
            Projection {
                aspect: CAMERA_ASPECT,
                fovy: CAMERA_FOVY,
                znear: CAMERA_ZNEAR,
                zfar: depth,
            },
        ),
        fly_control: true,
        ..EntityData::spec_empty()
    }
}

/// The slots of a world once the held camera, if any, is deleted.
pub open spec fn without_camera(
    w: Seq<Option<EntityData>>,
    camera: Option<EntityId>,
) -> Seq<Option<EntityData>> {
    match camera {
        Some(id) => w.update(id.index as int, None),
        None => w,
    }
}

impl GamePlayState {
    /// A controller that has placed no camera yet, with pointer capture off.
    pub open spec fn spec_new() -> GamePlayState {
        GamePlayState {
            paused: false,
            desired_time_scale: F32_ONE,
            camera: None,
            camera_z: INITIAL_CAMERA_Z,
            camera_depth_vision: DEFAULT_DEPTH_OF_VIEW,
            hide_cursor: false,
        }
    }

    /// The camera held by the state is the only camera entity of the world.
    pub open spec fn camera_wf(&self, world: Registry) -> bool {
        match self.camera {
            Some(id) => world.has_camera(id.index as int) && forall|i: int|
                world.has_camera(i) ==> i == id.index,
            None => world.no_camera(),
        }
    }

    pub fn new(world: &Registry) -> (r: GamePlayState)
        ensures
            r == GamePlayState::spec_new(),
            world.no_camera() ==> r.camera_wf(*world),
    {
        GamePlayState {
            paused: false,
            desired_time_scale: F32_ONE,
            camera: None,
            camera_z: INITIAL_CAMERA_Z,
            camera_depth_vision: DEFAULT_DEPTH_OF_VIEW,
            hide_cursor: false,
        }
    }

    /// Replaces the camera: deletes the held camera entity, if any, then
    /// creates one at the configured depth position and depth of view.
    pub fn adjust_camera(&mut self, world: &mut Registry)
        requires
            old(self).camera_wf(*old(world)),
            old(world)@.len() < usize::MAX,
        ensures
            final(self).camera == Some(EntityId { index: old(world)@.len() as usize }),
            *final(self) == (GamePlayState { camera: final(self).camera, ..*old(self) }),
            final(world)@ == without_camera(old(world)@, old(self).camera).push(
                Some(camera_entity(old(self).camera_z, old(self).camera_depth_vision)),
            ),
            final(self).camera_wf(*final(world)),
    {
        match self.camera {
            Some(id) => {
                match world.delete(id) {
                    Ok(()) => {},
                    Err(_) => {
                        proof {
                            assert(false);
                        }
                    },
                }
            },
            None => {},
        }
        self.camera = None;
        let ghost cleared = world@;
        assert(cleared == without_camera(old(world)@, old(self).camera));
        assert forall|i: int| 0 <= i < cleared.len() implies !(cleared[i] is Some
            && cleared[i]->Some_0.camera is Some) by {
            if old(world).has_camera(i) {
                assert(old(self).camera is Some && i == old(self).camera->Some_0.index);
            }
        }
        let mut data = EntityData::empty();
        data.transform = Some(
            Transform {
                translation: Vector3 { x: CAMERA_X, y: F32_ZERO, z: self.camera_z },
                rotation: Vector3 { x: CAMERA_ROLL, y: F32_ZERO, z: CAMERA_YAW },
            },
        );
        data.camera = Some(
            Projection {
                aspect: CAMERA_ASPECT,
                fovy: CAMERA_FOVY,
                znear: CAMERA_ZNEAR,
                zfar: self.camera_depth_vision,
            },
        );
        data.fly_control = true;
        let camera = world.create(data);
        self.camera = Some(camera);
        assert(forall|i: int| world.has_camera(i) ==> i == camera.index) by {
            assert forall|i: int| world.has_camera(i) implies i == camera.index by {
                if i != camera.index {
                    assert(world@[i] == cleared[i]);
                    assert(false);
                }
            }
        }
    }

    /// Moves the camera to the forward offset and places it anew.
    pub fn initialise_camera(&mut self, world: &mut Registry)
        requires
            old(self).camera_wf(*old(world)),
            old(world)@.len() < usize::MAX,
        ensures
            final(self).camera == Some(EntityId { index: old(world)@.len() as usize }),
            *final(self) == (GamePlayState {
                camera: final(self).camera,
                camera_z: CAMERA_FORWARD_OFFSET,
                ..*old(self)
            }),
            final(world)@ == without_camera(old(world)@, old(self).camera).push(
                Some(camera_entity(CAMERA_FORWARD_OFFSET, old(self).camera_depth_vision)),
            ),
            final(self).camera_wf(*final(world)),
    {
        self.camera_z = CAMERA_FORWARD_OFFSET;
        self.adjust_camera(world);
    }

    /// Entering gameplay: creates the sun entity, then places the camera.
    pub fn on_start(&mut self, world: &mut Registry)
        requires
            old(self).camera_wf(*old(world)),
            old(world)@.len() < usize::MAX - 1,
        ensures
            final(self).camera == Some(EntityId { index: (old(world)@.len() + 1) as usize }),
            *final(self) == (GamePlayState {
                camera: final(self).camera,
                camera_z: CAMERA_FORWARD_OFFSET,
                ..*old(self)
            }),
            final(world)@ == without_camera(
                old(world)@.push(Some(light_entity())),
                old(self).camera,
            ).push(Some(camera_entity(CAMERA_FORWARD_OFFSET, old(self).camera_depth_vision))),
            final(self).camera_wf(*final(world)),
    {
        let mut light = EntityData::empty();
        light.light = Some(
            DirectionalLight {
                color: Vector3 { x: F32_ONE, y: F32_ONE, z: F32_ONE },
                intensity: LIGHT_INTENSITY,
                direction: Vector3 { x: F32_ZERO, y: LIGHT_DIRECTION_Y, z: LIGHT_DIRECTION_Z },
            },
        );
        let ghost before = world@;
        world.create(light);
        assert forall|i: int| world.has_camera(i) implies old(world).has_camera(i) by {
            if i < before.len() {
                assert(world@[i] == before[i]);
            }
        }
        self.initialise_camera(world);
    }

    /// One gameplay tick: no simulation work yet.
    pub fn update(&mut self, _world: &Registry) -> (r: Trans)
        ensures
            r is Continue,
            *final(self) == *old(self),
    {
        Trans::Continue
    }

    /// Pointer capture: releasing Escape frees the pointer, pressing the left
    /// button captures it; the last such event wins and others change nothing.
    pub fn handle_event(&mut self, event: InputEvent) -> (r: Trans)
        ensures
            r is Continue,
            *final(self) == (GamePlayState {
                hide_cursor: match event {
                    InputEvent::KeyReleased(Key::Escape) => false,
                    InputEvent::MouseButtonPressed(MouseButton::Left) => true,
                    _ => old(self).hide_cursor,
                },
                ..*old(self)
            }),
    {
        match event {
            InputEvent::KeyReleased(Key::Escape) => {
                self.hide_cursor = false;
            },
            InputEvent::MouseButtonPressed(MouseButton::Left) => {
                self.hide_cursor = true;
            },
            _ => {},
        }
        Trans::Continue
    }
}

/// While the controller's camera invariant holds, the world never holds two
/// camera entities; every camera operation above keeps that invariant.
pub proof fn lemma_at_most_one_camera(state: GamePlayState, world: Registry)
    requires
        state.camera_wf(world),
    ensures
        world.at_most_one_camera(),
{
}

} // verus!
