//! The dashboard's domain model: entities as read from Home Assistant.

use vstd::prelude::*;

verus! {

/// The categories of entities that the dashboard distinguishes.
#[derive(Clone, Copy, Debug, PartialEq, Eq, Structural)]
pub enum EntityKind {
    Light,
    Switch,
    Sensor,
    Climate,
    Script,
}

/// A Home Assistant entity id such as `light.kitchen`.
#[derive(Debug)]
pub struct EntityId(pub String);

impl View for EntityId {
    type V = Seq<char>;

    open spec fn view(&self) -> Seq<char> {
        self.0@
    }
}

impl Clone for EntityId {
    fn clone(&self) -> (r: Self)
        ensures
            r@ == self@,
    {
        EntityId(self.0.clone())
    }
}

impl EntityId {
    /// The id as a string slice.
    pub fn as_str(&self) -> (r: &str)
        ensures
            r@ == self@,
    {
        self.0.as_str()
    }

    /// The id as an owned string (what `Display` prints).
    pub fn to_string(&self) -> (r: String)
        ensures
            r@ == self@,
    {
        self.0.clone()
    }
}

/// The view of an optional string.
pub open spec fn opt_str_view(o: Option<String>) -> Option<Seq<char>> {
    match o {
        Some(s) => Some(s@),
        None => None,
    }
}

/// The views of a sequence of strings.
pub open spec fn string_views(s: Seq<String>) -> Seq<Seq<char>> {
    s.map_values(|x: String| x@)
}

/// The views of a sequence of entity ids.
pub open spec fn id_views(s: Seq<EntityId>) -> Seq<Seq<char>> {
    s.map_values(|x: EntityId| x@)
}

/// Clones an optional string, keeping its contents.
pub fn clone_opt_string(o: &Option<String>) -> (r: Option<String>)
    ensures
        opt_str_view(r) == opt_str_view(*o),
{
    match o {
        Some(s) => Some(s.clone()),
        None => None,
    }
}

/// One entity as the dashboard shows it.
#[derive(Debug)]
pub struct Entity {
    pub id: EntityId,
    pub name: String,
    pub kind: EntityKind,
    pub is_on: bool,
    pub value: Option<String>,
    pub brightness: Option<u8>,
    pub color_temp_kelvin: Option<u16>,
    pub min_color_temp_kelvin: Option<u16>,
    pub max_color_temp_kelvin: Option<u16>,
    pub rgb_color: Option<[u8; 3]>,
}

/// The mathematical content of an [`Entity`].
pub struct EntityView {
    pub id: Seq<char>,
    pub name: Seq<char>,
    pub kind: EntityKind,
    pub is_on: bool,
    pub value: Option<Seq<char>>,
    pub brightness: Option<u8>,
    pub color_temp_kelvin: Option<u16>,
    pub min_color_temp_kelvin: Option<u16>,
    pub max_color_temp_kelvin: Option<u16>,
    pub rgb_color: Option<[u8; 3]>,
}

impl View for Entity {
    type V = EntityView;

    open spec fn view(&self) -> EntityView {
        EntityView {
            id: self.id@,
            name: self.name@,
            kind: self.kind,
            is_on: self.is_on,
            value: opt_str_view(self.value),
            brightness: self.brightness,
            color_temp_kelvin: self.color_temp_kelvin,
            min_color_temp_kelvin: self.min_color_temp_kelvin,
            max_color_temp_kelvin: self.max_color_temp_kelvin,
            rgb_color: self.rgb_color,
        }
    }
}

impl Clone for Entity {
    fn clone(&self) -> (r: Self)
        ensures
            r@ == self@,
    {
        Entity {
            id: self.id.clone(),
            name: self.name.clone(),
            kind: self.kind,
            is_on: self.is_on,
            value: clone_opt_string(&self.value),
            brightness: self.brightness,
            color_temp_kelvin: self.color_temp_kelvin,
            min_color_temp_kelvin: self.min_color_temp_kelvin,
            max_color_temp_kelvin: self.max_color_temp_kelvin,
            rgb_color: self.rgb_color,
        }
    }
}

/// The views of a sequence of entities.
pub open spec fn entity_views(s: Seq<Entity>) -> Seq<EntityView> {
    s.map_values(|e: Entity| e@)
}

/// All entities that Home Assistant reported, in its order.
#[derive(Debug)]
pub struct DashboardState {
    pub entities: Vec<Entity>,
}

impl View for DashboardState {
    type V = Seq<EntityView>;

    open spec fn view(&self) -> Seq<EntityView> {
        entity_views(self.entities@)
    }
}

impl Clone for DashboardState {
    fn clone(&self) -> (r: Self)
        ensures
            r@ == self@,
    {
        let mut entities: Vec<Entity> = Vec::new();
        let n = self.entities.len();
        for i in 0..n
            invariant
                n == self.entities@.len(),
                entities@.len() == i,
                forall|j: int| 0 <= j < i ==> #[trigger] entities@[j]@ == self.entities@[j]@,
        {
            entities.push(self.entities[i].clone());
        }
        let r = DashboardState { entities };
        assert(r@ =~= self@);
        r
    }
}

/// The library's error: an internal failure described by a message.
#[derive(Debug)]
pub enum AppError {
    Internal(String),
}

impl AppError {
    /// The message carried by the error.
    pub open spec fn message(&self) -> Seq<char> {
        match self {
            AppError::Internal(m) => m@,
        }
    }
}

} // verus!
