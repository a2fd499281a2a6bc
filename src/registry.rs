//! The entity registry: the container that owns every live entity and the
//! components attached to it.
use vstd::prelude::*;

use crate::actors::{Position, SceneRef};

verus! {

/// Identifier of an entity: its slot in the registry. Slots are never reused,
/// so an identifier never comes to name a second entity.
#[derive(Clone, Copy, Debug, PartialEq, Eq, Structural)]
pub struct EntityId {
    pub index: usize,
}

/// Handle of a requested actor description; `id` numbers the load requests.
#[derive(Clone, Copy, Debug, PartialEq, Eq, Structural)]
pub struct PrefabHandle {
    pub id: u64,
}

/// Three components, each the bit pattern of an `f32`.
#[derive(Clone, Copy, Debug, PartialEq, Eq, Structural)]
pub struct Vector3 {
    pub x: u32,
    pub y: u32,
    pub z: u32,
}

/// Placement of an entity: a translation and Euler angles (roll, pitch, yaw).
#[derive(Clone, Copy, Debug, PartialEq, Eq, Structural)]
pub struct Transform {
    pub translation: Vector3,
    pub rotation: Vector3,
}

/// A perspective projection.
#[derive(Clone, Copy, Debug, PartialEq, Eq, Structural)]
pub struct Projection {
    pub aspect: u32,
    pub fovy: u32,
    pub znear: u32,
    pub zfar: u32,
}

/// A directional light: color as red, green and blue, intensity and direction.
#[derive(Clone, Copy, Debug, PartialEq, Eq, Structural)]
pub struct DirectionalLight {
    pub color: Vector3,
    pub intensity: u32,
    pub direction: Vector3,
}

/// The components of one entity; each is present or absent.
#[derive(Debug)]
pub struct EntityData {
    pub name: Option<String>,
    pub position: Option<Position>,
    pub prefab: Option<PrefabHandle>,
    /// The scene whose geometry was requested for this entity.
    pub mesh: Option<SceneRef>,
    pub light: Option<DirectionalLight>,
    pub transform: Option<Transform>,
    pub camera: Option<Projection>,
    /// Whether the entity is steered by the free-fly controls.
    pub fly_control: bool,
}

impl EntityData {
    pub open spec fn spec_empty() -> EntityData {
        EntityData {
            name: None,
            position: None,
            prefab: None,
            mesh: None,
            light: None,
            transform: None,
            camera: None,
            fly_control: false,
        }
    }

    /// An entity with no component.
    pub fn empty() -> (r: EntityData)
        ensures
            r == EntityData::spec_empty(),
    {
        EntityData {
            name: None,
            position: None,
            prefab: None,
            mesh: None,
            light: None,
            transform: None,
            camera: None,
            fly_control: false,
        }
    }
}

/// One line of the diagnostic listing of live entities.
#[derive(Debug)]
pub struct EntityRow {
    pub entity: EntityId,
    pub prefab: Option<PrefabHandle>,
    pub position: Option<Position>,
    pub name: Option<String>,
}

/// The listing of the live entities among `slots`, in slot order.
pub open spec fn rows_of(slots: Seq<Option<EntityData>>) -> Seq<EntityRow>
    decreases slots.len(),
{
    if slots.len() == 0 {
        Seq::empty()
    } else {
        let before = rows_of(slots.drop_last());
        match slots.last() {
            Some(d) => before.push(
                EntityRow {
                    entity: EntityId { index: (slots.len() - 1) as usize },
                    prefab: d.prefab,
                    position: d.position,
                    name: d.name,
                },
            ),
            None => before,
        }
    }
}

/// Why a registry operation was refused.
#[derive(Clone, Copy, Debug, PartialEq, Eq, Structural)]
pub enum RegistryError {
    /// The identifier names no live entity.
    NotLive(EntityId),
}

/// All entities, by slot; a deleted entity leaves an empty slot.
pub struct Registry {
    slots: Vec<Option<EntityData>>,
}

impl View for Registry {
    type V = Seq<Option<EntityData>>;

    closed spec fn view(&self) -> Seq<Option<EntityData>> {
        self.slots@
    }
}

impl Registry {
    pub open spec fn is_live(&self, id: EntityId) -> bool {
        id.index < self@.len() && self@[id.index as int] is Some
    }

    /// The components of a live entity.
    pub open spec fn data(&self, id: EntityId) -> EntityData {
        self@[id.index as int]->Some_0
    }

    /// Whether slot `i` holds a live camera entity.
    pub open spec fn has_camera(&self, i: int) -> bool {
        0 <= i < self@.len() && self@[i] is Some && self@[i]->Some_0.camera is Some
    }

    /// No two live entities carry a camera.
    pub open spec fn at_most_one_camera(&self) -> bool {
        forall|i: int, j: int| self.has_camera(i) && self.has_camera(j) ==> i == j
    }

    pub open spec fn no_camera(&self) -> bool {
        forall|i: int| !self.has_camera(i)
    }

    pub fn new() -> (r: Registry)
        ensures
            r@ == Seq::<Option<EntityData>>::empty(),
    {
        Registry { slots: Vec::new() }
    }

    /// Number of slots, live or not.
    pub fn slot_count(&self) -> (r: usize)
        ensures
            r == self@.len(),
    {
        self.slots.len()
    }

    /// Creates an entity with the given components.
    pub fn create(&mut self, data: EntityData) -> (r: EntityId)
        requires
            old(self)@.len() < usize::MAX,
        ensures
            r.index == old(self)@.len(),
            final(self)@ == old(self)@.push(Some(data)),
    {
        let r = EntityId { index: self.slots.len() };
        self.slots.push(Some(data));
        r
    }

    /// Deletes a live entity; an identifier that names none is refused.
    pub fn delete(&mut self, id: EntityId) -> (r: Result<(), RegistryError>)
        ensures
            old(self).is_live(id) ==> r is Ok && final(self)@ == old(self)@.update(
                id.index as int,
                None,
            ),
            !old(self).is_live(id) ==> r == Err::<(), RegistryError>(RegistryError::NotLive(id))
                && final(self)@ == old(self)@,
    {
        if id.index < self.slots.len() && self.slots[id.index].is_some() {
            self.slots.set(id.index, None);
            Ok(())
        } else {
            Err(RegistryError::NotLive(id))
        }
    }

    /// The components of an entity, if it is live.
    pub fn get(&self, id: EntityId) -> (r: Option<&EntityData>)
        ensures
            self.is_live(id) ==> r == Some(&self.data(id)),
            !self.is_live(id) ==> r is None,
    {
        if id.index < self.slots.len() {
            match &self.slots[id.index] {
                Some(d) => Some(d),
                None => None,
            }
        } else {
            None
        }
    }

    /// Attaches (or replaces) the name of a live entity.
    pub fn insert_name(&mut self, id: EntityId, name: String)
        requires
            old(self).is_live(id),
        ensures
            final(self)@ == old(self)@.update(
                id.index as int,
                Some(EntityData { name: Some(name), ..old(self).data(id) }),
            ),
    {
        match &mut self.slots[id.index] {
            Some(d) => {
                d.name = Some(name);
            },
            None => {},
        }
    }

    /// Attaches (or replaces) the position of a live entity.
    pub fn insert_position(&mut self, id: EntityId, position: Position)
        requires
            old(self).is_live(id),
        ensures
            final(self)@ == old(self)@.update(
                id.index as int,
                Some(EntityData { position: Some(position), ..old(self).data(id) }),
            ),
    {
        match &mut self.slots[id.index] {
            Some(d) => {
                d.position = Some(position);
            },
            None => {},
        }
    }

    /// Records on a live entity the scene whose geometry was requested for it.
    pub fn insert_mesh(&mut self, id: EntityId, mesh: SceneRef)
        requires
            old(self).is_live(id),
        ensures
            final(self)@ == old(self)@.update(
                id.index as int,
                Some(EntityData { mesh: Some(mesh), ..old(self).data(id) }),
            ),
    {
        match &mut self.slots[id.index] {
            Some(d) => {
                d.mesh = Some(mesh);
            },
            None => {},
        }
    }

    /// Lists every live entity with its prefab handle, position and name.
    pub fn entity_rows(&self) -> (r: Vec<EntityRow>)
        ensures
            r@ == rows_of(self@),
    {
        let mut r: Vec<EntityRow> = Vec::new();
        let mut i: usize = 0;
        while i < self.slots.len()
            invariant
                0 <= i <= self.slots@.len(),
                r@ == rows_of(self.slots@.take(i as int)),
            decreases self.slots@.len() - i,
        {
            proof {
                assert(self.slots@.take(i as int + 1).drop_last() =~= self.slots@.take(i as int));
            }
            match &self.slots[i] {
                Some(d) => {
                    let name = match &d.name {
                        Some(n) => Some(n.clone()),
                        None => None,
                    };
                    r.push(
                        EntityRow {
                            entity: EntityId { index: i },
                            prefab: d.prefab,
                            position: d.position,
                            name: name,
                        },
                    );
                },
                None => {},
            }
            i = i + 1;
        }
        proof {
            assert(self.slots@.take(self.slots@.len() as int) =~= self.slots@);
        }
        r
    }
}

} // verus!
