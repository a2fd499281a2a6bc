//! Actor descriptions: the declarative record from which an actor entity is
//! built, and its field-by-field description format.
use vstd::prelude::*;

use crate::registry::{EntityData, EntityId, PrefabHandle, Registry};

verus! {

/// Spatial coordinate of an entity; each component is the bit pattern of an `f32`.
#[derive(Clone, Copy, Debug, PartialEq, Eq, Structural)]
pub struct Position {
    pub x: u32,
    pub y: u32,
    pub z: u32,
}

/// Reference to an external glTF scene description, by logical asset path.
#[derive(Debug)]
pub struct SceneRef {
    pub path: String,
}

/// A named, positioned actor, optionally bound to a mesh scene.
#[derive(Debug)]
pub struct Actor {
    pub name: String,
    pub position: Position,
    pub mesh: Option<SceneRef>,
}

/// The fields that an actor description may hold.
#[derive(Clone, Copy, Debug, PartialEq, Eq, Structural)]
pub enum Field {
    Name,
    Position,
    Mesh,
}

/// The value of one entry of a description.
#[derive(Debug)]
pub enum Value {
    /// A string.
    Text(String),
    /// Three numeric components.
    Coords(Position),
    /// A scene reference.
    Scene(SceneRef),
    /// An explicitly absent optional value.
    Empty,
}

/// One `key: value` entry of a description, in the order written.
#[derive(Debug)]
pub struct Entry {
    pub key: String,
    pub value: Value,
}

/// Why a description does not describe an actor.
#[derive(Debug)]
pub enum SchemaError {
    /// A key that names no field.
    UnknownField(String),
    /// A field given twice.
    DuplicateField(Field),
    /// A field whose value has the wrong shape.
    InvalidType(Field),
    /// A required field that is absent.
    MissingField(Field),
}

/// Fields gathered so far while reading a description.
pub struct Partial {
    pub name: Option<String>,
    pub position: Option<Position>,
    /// `None` while the field is unseen; `Some(m)` once it was read as `m`.
    pub mesh: Option<Option<SceneRef>>,
}

pub open spec fn field_of_key(key: Seq<char>) -> Option<Field> {
    if key == "name"@ {
        Some(Field::Name)
    } else if key == "position"@ {
        Some(Field::Position)
    } else if key == "mesh"@ {
        Some(Field::Mesh)
    } else {
        None
    }
}

pub open spec fn key_of_field(f: Field) -> Seq<char> {
    match f {
        Field::Name => "name"@,
        Field::Position => "position"@,
        Field::Mesh => "mesh"@,
    }
}

/// Reads one more entry into what was gathered.
pub open spec fn absorb(p: Partial, e: Entry) -> Result<Partial, SchemaError> {
    match field_of_key(e.key@) {
        None => Err(SchemaError::UnknownField(e.key)),
        Some(Field::Name) => if p.name is Some {
            Err(SchemaError::DuplicateField(Field::Name))
        } else {
            match e.value {
                Value::Text(s) => Ok(Partial { name: Some(s), ..p }),
                _ => Err(SchemaError::InvalidType(Field::Name)),
            }
        },
        Some(Field::Position) => if p.position is Some {
            Err(SchemaError::DuplicateField(Field::Position))
        } else {
            match e.value {
                Value::Coords(c) => Ok(Partial { position: Some(c), ..p }),
                _ => Err(SchemaError::InvalidType(Field::Position)),
            }
        },
        Some(Field::Mesh) => if p.mesh is Some {
            Err(SchemaError::DuplicateField(Field::Mesh))
        } else {
            match e.value {
                Value::Scene(s) => Ok(Partial { mesh: Some(Some(s)), ..p }),
                Value::Empty => Ok(Partial { mesh: Some(None), ..p }),
                _ => Err(SchemaError::InvalidType(Field::Mesh)),
            }
        },
    }
}

/// Reads the entries in order, stopping at the first faulty one.
pub open spec fn scan(es: Seq<Entry>) -> Result<Partial, SchemaError>
    decreases es.len(),
{
    if es.len() == 0 {
        Ok(Partial { name: None, position: None, mesh: None })
    } else {
        match scan(es.drop_last()) {
            Err(e) => Err(e),
            Ok(p) => absorb(p, es.last()),
        }
    }
}

/// Completes a scan: the name and the position are required, the mesh is not.
pub open spec fn complete(p: Partial) -> Result<Actor, SchemaError> {
    match (p.name, p.position) {
        (None, _) => Err(SchemaError::MissingField(Field::Name)),
        (Some(_), None) => Err(SchemaError::MissingField(Field::Position)),
        (Some(n), Some(c)) => Ok(
            Actor {
                name: n,
                position: c,
                mesh: match p.mesh {
                    Some(m) => m,
                    None => None,
                },
            },
        ),
    }
}

/// The actor that a description describes, or why it describes none.
pub open spec fn decode(es: Seq<Entry>) -> Result<Actor, SchemaError> {
    match scan(es) {
        Err(e) => Err(e),
        Ok(p) => complete(p),
    }
}

/// Whether `es` is the description of `a`: its name, its position and its
/// mesh, in that order, the mesh written as empty when there is none.
pub open spec fn describes(es: Seq<Entry>, a: Actor) -> bool {
    &&& es.len() == 3
    &&& es[0].key@ == "name"@
    &&& es[0].value == Value::Text(a.name)
    &&& es[1].key@ == "position"@
    &&& es[1].value == Value::Coords(a.position)
    &&& es[2].key@ == "mesh"@
    &&& es[2].value == match a.mesh {
        Some(s) => Value::Scene(s),
        None => Value::Empty,
    }
}

/// Once reading stops at a faulty entry, later entries change nothing.
pub proof fn lemma_scan_stops(es: Seq<Entry>, k: int)
    requires
        0 <= k <= es.len(),
        scan(es.take(k)) is Err,
    ensures
        scan(es) == scan(es.take(k)),
    decreases es.len(),
{
    if k == es.len() {
        assert(es.take(k) =~= es);
    } else {
        assert(es.drop_last().take(k) =~= es.take(k));
        lemma_scan_stops(es.drop_last(), k);
    }
}

/// Reading the description of an actor gives back that same actor.
pub proof fn lemma_round_trip(es: Seq<Entry>, a: Actor)
    requires
        describes(es, a),
    ensures
        decode(es) == Ok::<Actor, SchemaError>(a),
{
    reveal_strlit("name");
    reveal_strlit("position");
    reveal_strlit("mesh");
    let e0 = es.drop_last().drop_last();
    let e1 = es.drop_last();
    assert(e0.drop_last() =~= Seq::<Entry>::empty());
    assert(e0.last() == es[0]);
    assert(e1.last() == es[1]);
    assert("position"@.len() != "name"@.len());
    assert("mesh"@[0] != "name"@[0]);
    assert("mesh"@.len() != "position"@.len());
    assert(field_of_key(es[0].key@) == Some(Field::Name));
    assert(field_of_key(es[1].key@) == Some(Field::Position));
    assert(field_of_key(es[2].key@) == Some(Field::Mesh));
    assert(scan(e0.drop_last()) == Ok::<Partial, SchemaError>(
        Partial { name: None, position: None, mesh: None },
    ));
    assert(scan(e0) == Ok::<Partial, SchemaError>(
        Partial { name: Some(a.name), position: None, mesh: None },
    ));
    assert(scan(e1) == Ok::<Partial, SchemaError>(
        Partial { name: Some(a.name), position: Some(a.position), mesh: None },
    ));
}

/// Reading a description, writing the actor read back out and reading that
/// again gives the same actor.
pub proof fn lemma_decode_encode(es: Seq<Entry>, written: Seq<Entry>)
    requires
        decode(es) is Ok,
        describes(written, decode(es)->Ok_0),
    ensures
        decode(written) == decode(es),
{
    lemma_round_trip(written, decode(es)->Ok_0);
}

/// A description holding an entry whose key names no field is rejected.
pub proof fn lemma_unknown_field_rejected(es: Seq<Entry>, i: int)
    requires
        0 <= i < es.len(),
        field_of_key(es[i].key@) is None,
    ensures
        decode(es) is Err,
{
    let t = es.take(i + 1);
    assert(t.drop_last() =~= es.take(i));
    assert(t.last() == es[i]);
    assert(scan(t) is Err);
    lemma_scan_stops(es, i + 1);
}

/// The components of an entity once an actor was attached to it: its name
/// and position replaced, and its mesh replaced when the actor has one.
pub open spec fn with_actor(d: EntityData, a: Actor) -> EntityData {
    EntityData {
        name: Some(a.name),
        position: Some(a.position),
        mesh: match a.mesh {
            Some(m) => Some(m),
            None => d.mesh,
        },
        ..d
    }
}

/// Whether a slot holds a live entity placed for `handle`.
pub open spec fn holds_prefab(slot: Option<EntityData>, handle: PrefabHandle) -> bool {
    slot is Some && slot->Some_0.prefab == Some(handle)
}

/// The entities among `slots` placed for `handle`, in slot order.
pub open spec fn holders(slots: Seq<Option<EntityData>>, handle: PrefabHandle) -> Seq<EntityId>
    decreases slots.len(),
{
    if slots.len() == 0 {
        Seq::empty()
    } else if holds_prefab(slots.last(), handle) {
        holders(slots.drop_last(), handle).push(EntityId { index: (slots.len() - 1) as usize })
    } else {
        holders(slots.drop_last(), handle)
    }
}

/// Which field a key names, if any.
pub fn field_of(key: &String) -> (r: Option<Field>)
    ensures
        r == field_of_key(key@),
{
    if *key == "name".to_owned() {
        Some(Field::Name)
    } else if *key == "position".to_owned() {
        Some(Field::Position)
    } else if *key == "mesh".to_owned() {
        Some(Field::Mesh)
    } else {
        None
    }
}

impl SceneRef {
    pub fn duplicate(&self) -> (r: SceneRef)
        ensures
            r == *self,
    {
        SceneRef { path: self.path.clone() }
    }
}

fn duplicate_mesh(m: &Option<SceneRef>) -> (r: Option<SceneRef>)
    ensures
        r == *m,
{
    match m {
        Some(s) => Some(s.duplicate()),
        None => None,
    }
}

impl Actor {
    /// Reads an actor from its description. Entries are read in order and the
    /// first faulty one is reported; then a missing name, then a missing position.
    pub fn from_description(es: &Vec<Entry>) -> (r: Result<Actor, SchemaError>)
        ensures
            r == decode(es@),
    {
        let mut p = Partial { name: None, position: None, mesh: None };
        let mut i: usize = 0;
        while i < es.len()
            invariant
                0 <= i <= es@.len(),
                scan(es@.take(i as int)) == Ok::<Partial, SchemaError>(p),
            decreases es@.len() - i,
        {
            let e = &es[i];
            proof {
                assert(es@.take(i as int + 1).drop_last() =~= es@.take(i as int));
            }
            proof {
                if scan(es@.take(i as int + 1)) is Err {
                    lemma_scan_stops(es@, i as int + 1);
                }
            }
            match field_of(&e.key) {
                None => {
                    return Err(SchemaError::UnknownField(e.key.clone()));
                },
                Some(Field::Name) => {
                    if p.name.is_some() {
                        return Err(SchemaError::DuplicateField(Field::Name));
                    }
                    match &e.value {
                        Value::Text(n) => {
                            p.name = Some(n.clone());
                        },
                        _ => {
                            return Err(SchemaError::InvalidType(Field::Name));
                        },
                    }
                },
                Some(Field::Position) => {
                    if p.position.is_some() {
                        return Err(SchemaError::DuplicateField(Field::Position));
                    }
                    match &e.value {
                        Value::Coords(c) => {
                            p.position = Some(*c);
                        },
                        _ => {
                            return Err(SchemaError::InvalidType(Field::Position));
                        },
                    }
                },
                Some(Field::Mesh) => {
                    if p.mesh.is_some() {
                        return Err(SchemaError::DuplicateField(Field::Mesh));
                    }
                    match &e.value {
                        Value::Scene(m) => {
                            p.mesh = Some(Some(m.duplicate()));
                        },
                        Value::Empty => {
                            p.mesh = Some(None);
                        },
                        _ => {
                            return Err(SchemaError::InvalidType(Field::Mesh));
                        },
                    }
                },
            }
            i = i + 1;
        }
        proof {
            assert(es@.take(es@.len() as int) =~= es@);
        }
        match (p.name, p.position) {
            (None, _) => Err(SchemaError::MissingField(Field::Name)),
            (Some(_), None) => Err(SchemaError::MissingField(Field::Position)),
            (Some(n), Some(c)) => Ok(
                Actor {
                    name: n,
                    position: c,
                    mesh: match p.mesh {
                        Some(m) => m,
                        None => None,
                    },
                },
            ),
        }
    }

    /// Writes the description of this actor.
    pub fn to_description(&self) -> (r: Vec<Entry>)
        ensures
            describes(r@, *self),
    {
        let mesh = match &self.mesh {
            Some(s) => Value::Scene(s.duplicate()),
            None => Value::Empty,
        };
        vec![
            Entry { key: "name".to_owned(), value: Value::Text(self.name.clone()) },
            Entry { key: "position".to_owned(), value: Value::Coords(self.position) },
            Entry { key: "mesh".to_owned(), value: mesh },
        ]
    }

    /// Attaches this actor's name and position to a live entity and, when the
    /// actor has a mesh, records it there and returns it as the scene to load.
    pub fn add_to_entity(&self, world: &mut Registry, entity: EntityId) -> (r: Option<SceneRef>)
        requires
            old(world).is_live(entity),
        ensures
            r == self.mesh,
            final(world)@ == old(world)@.update(
                entity.index as int,
                Some(with_actor(old(world).data(entity), *self)),
            ),
    {
        world.insert_name(entity, self.name.clone());
        world.insert_position(entity, self.position);
        match &self.mesh {
            Some(m) => {
                world.insert_mesh(entity, m.duplicate());
            },
            None => {},
        }
        duplicate_mesh(&self.mesh)
    }

    /// Creates one entity carrying this actor's components; returns it with
    /// the scene to load, if the actor has a mesh.
    pub fn instantiate(&self, world: &mut Registry) -> (r: (EntityId, Option<SceneRef>))
        requires
            old(world)@.len() < usize::MAX,
        ensures
            r.0.index == old(world)@.len(),
            r.1 == self.mesh,
            final(world)@ == old(world)@.push(
                Some(
                    EntityData {
                        name: Some(self.name),
                        position: Some(self.position),
                        mesh: self.mesh,
                        ..EntityData::spec_empty()
                    },
                ),
            ),
    {
        let mut data = EntityData::empty();
        data.name = Some(self.name.clone());
        data.position = Some(self.position);
        data.mesh = duplicate_mesh(&self.mesh);
        let id = world.create(data);
        (id, duplicate_mesh(&self.mesh))
    }

    /// A resolved description reaches the entities placed for it: attaches
    /// this actor to every live entity whose prefab handle is `handle` and
    /// returns those entities, in slot order. Other entities are unchanged.
    pub fn apply_prefab(&self, world: &mut Registry, handle: PrefabHandle) -> (r: Vec<EntityId>)
        ensures
            r@ == holders(old(world)@, handle),
            final(world)@.len() == old(world)@.len(),
            forall|i: int|
                0 <= i < old(world)@.len() ==> final(world)@[i] == if holds_prefab(
                    old(world)@[i],
                    handle,
                ) {
                    Some(with_actor(old(world)@[i]->Some_0, *self))
                } else {
                    old(world)@[i]
                },
    {
        let ghost start = world@;
        let mut r: Vec<EntityId> = Vec::new();
        let n = world.slot_count();
        let mut i: usize = 0;
        while i < n
            invariant
                n == start.len(),
                0 <= i <= n,
                world@.len() == n,
                r@ == holders(start.take(i as int), handle),
                forall|j: int|
                    0 <= j < i ==> world@[j] == if holds_prefab(start[j], handle) {
                        Some(with_actor(start[j]->Some_0, *self))
                    } else {
                        start[j]
                    },
                forall|j: int| i <= j < n ==> world@[j] == start[j],
            decreases n - i,
        {
            proof {
                assert(start.take(i as int + 1).drop_last() =~= start.take(i as int));
            }
            let id = EntityId { index: i };
            let placed = match world.get(id) {
                Some(d) => d.prefab == Some(handle),
                None => false,
            };
            if placed {
                self.add_to_entity(world, id);
                r.push(id);
            }
            i = i + 1;
        }
        proof {
            assert(start.take(n as int) =~= start);
        }
        r
    }
}

} // verus!
