//! The entities that exist from startup on, held as a table with explicit
//! parent links and capability queries.
use vstd::prelude::*;
use crate::color::{
    Hsla, player_color, mob_color, sensor_idle_color, player_color_spec, mob_color_spec,
    sensor_idle_color_spec,
};

verus! {

/// What an entity is.
#[derive(Clone, Copy, Debug, PartialEq, Eq, Structural)]
pub enum Kind {
    /// The orthographic 2D camera.
    Camera,
    /// The controllable body.
    Player,
    /// The overlap-only square attached to the player.
    Sensor,
    /// The static mob with a solid square.
    Mob,
}

/// The collision shape an entity carries.
#[derive(Clone, Copy, Debug, PartialEq, Eq, Structural)]
pub enum Shape {
    Absent,
    /// A square of this side that detects overlap and never pushes back.
    OverlapSquare(u32),
    /// A square of this side that takes part in solid collision.
    SolidSquare(u32),
}

/// A coloured square drawn for an entity.
#[derive(Clone, Copy, Debug, PartialEq, Eq, Structural)]
pub struct Sprite {
    pub side: u32,
    pub color: Hsla,
}

/// One entity of the world.
#[derive(Clone, Copy, Debug, PartialEq, Eq, Structural)]
pub struct Entity {
    pub kind: Kind,
    /// Position relative to the parent, or in the world when there is none.
    pub x: i32,
    pub y: i32,
    pub sprite: Option<Sprite>,
    pub shape: Shape,
    /// Acceleration in hundredths of a unit per second squared.
    pub acceleration: u32,
    /// Index of the parent entity in the table.
    pub parent: Option<usize>,
}

impl Entity {
    /// Whether the input steers this entity.
    pub fn is_controllable(&self) -> (r: bool)
        ensures
            r == (self.kind == Kind::Player),
    {
        self.kind == Kind::Player
    }

    /// Whether this entity moves by a velocity.
    pub fn has_velocity(&self) -> (r: bool)
        ensures
            r == (self.kind == Kind::Player),
    {
        self.kind == Kind::Player
    }

    /// Whether this entity is a hitbox whose colour shows its overlaps.
    pub fn is_hitbox(&self) -> (r: bool)
        ensures
            r == (self.kind == Kind::Sensor),
    {
        self.kind == Kind::Sensor
    }
}

/// The game world: its entities and the camera's zoom.
pub struct World {
    pub entities: Vec<Entity>,
    /// The camera shows one world unit per `zoom` screen units: its projection
    /// scale is `1 / zoom`.
    pub zoom: u32,
}

/// Number of entities of kind `k` in `s`.
pub open spec fn count_kind(s: Seq<Entity>, k: Kind) -> nat
    decreases s.len(),
{
    if s.len() == 0 {
        0
    } else {
        count_kind(s.drop_last(), k) + if s.last().kind == k {
            1nat
        } else {
            0nat
        }
    }
}

/// Every parent link points at an entity of the table that has no parent of
/// its own.
pub open spec fn links_wf(s: Seq<Entity>) -> bool {
    forall|i: int|
        0 <= i < s.len() && (#[trigger] s[i]).parent is Some ==> {
            let p = s[i].parent->Some_0 as int;
            0 <= p < s.len() && p != i && s[p].parent is None
        }
}

/// Position of entity `i` in the world: its own offset added to its parent's
/// position.
pub open spec fn world_position_spec(s: Seq<Entity>, i: int) -> (int, int) {
    match s[i].parent {
        Some(p) => (s[p as int].x + s[i].x, s[p as int].y + s[i].y),
        None => (s[i].x as int, s[i].y as int),
    }
}

/// The camera at startup.
pub open spec fn camera_spec() -> Entity {
    Entity {
        kind: Kind::Camera,
        x: 0,
        y: 0,
        sprite: None,
        shape: Shape::Absent,
        acceleration: 0,
        parent: None,
    }
}

/// The player at startup: at rest at the origin, accelerating by 0.4, drawn as
/// a unit square.
pub open spec fn player_spec() -> Entity {
    Entity {
        kind: Kind::Player,
        x: 0,
        y: 0,
        sprite: Some(Sprite { side: 1, color: player_color_spec() }),
        shape: Shape::Absent,
        acceleration: 40,
        parent: None,
    }
}

/// The sensor at startup: a 3 by 3 overlap square on the player, at no offset.
pub open spec fn sensor_spec(player: usize) -> Entity {
    Entity {
        kind: Kind::Sensor,
        x: 0,
        y: 0,
        sprite: Some(Sprite { side: 3, color: sensor_idle_color_spec() }),
        shape: Shape::OverlapSquare(3),
        acceleration: 0,
        parent: Some(player),
    }
}

/// The mob at startup: a solid unit square at (3, 0).
pub open spec fn mob_spec() -> Entity {
    Entity {
        kind: Kind::Mob,
        x: 3,
        y: 0,
        sprite: Some(Sprite { side: 1, color: mob_color_spec() }),
        shape: Shape::SolidSquare(1),
        acceleration: 0,
        parent: None,
    }
}

/// The entity table at startup: camera, player, the player's sensor, mob.
pub open spec fn startup_entities() -> Seq<Entity> {
    seq![camera_spec(), player_spec(), sensor_spec(1), mob_spec()]
}

/// The zoom of the camera: 50 world units fill one screen unit.
pub const CAMERA_ZOOM: u32 = 50;

impl World {
    pub open spec fn wf(&self) -> bool {
        links_wf(self.entities@)
    }

    /// Builds the world as it stands before the first frame.
    pub fn startup() -> (r: World)
        ensures
            r.entities@ == startup_entities(),
            r.zoom == CAMERA_ZOOM,
            r.wf(),
    {
        let mut entities: Vec<Entity> = Vec::new();
        entities.push(
            Entity {
                kind: Kind::Camera,
                x: 0,
                y: 0,
                sprite: None,
                shape: Shape::Absent,
                acceleration: 0,
                parent: None,
            },
        );
        let player_index: usize = entities.len();
        entities.push(
            Entity {
                kind: Kind::Player,
                x: 0,
                y: 0,
                sprite: Some(Sprite { side: 1, color: player_color() }),
                shape: Shape::Absent,
                acceleration: 40,
                parent: None,
            },
        );
        entities.push(
            Entity {
                kind: Kind::Sensor,
                x: 0,
                y: 0,
                sprite: Some(Sprite { side: 3, color: sensor_idle_color() }),
                shape: Shape::OverlapSquare(3),
                acceleration: 0,
                parent: Some(player_index),
            },
        );
        entities.push(
            Entity {
                kind: Kind::Mob,
                x: 3,
                y: 0,
                sprite: Some(Sprite { side: 1, color: mob_color() }),
                shape: Shape::SolidSquare(1),
                acceleration: 0,
                parent: None,
            },
        );
        let r = World { entities, zoom: CAMERA_ZOOM };
        assert(r.entities@ =~= startup_entities());
        r
    }

    /// Number of entities of kind `k`.
    pub fn count(&self, k: Kind) -> (r: usize)
        ensures
            r == count_kind(self.entities@, k),
    {
        let mut n: usize = 0;
        let mut i: usize = 0;
        while i < self.entities.len()
            invariant
                0 <= i <= self.entities.len(),
                n == count_kind(self.entities@.take(i as int), k),
                n <= i,
            decreases self.entities.len() - i,
        {
            assert(self.entities@.take(i + 1).drop_last() =~= self.entities@.take(i as int));
            if self.entities[i].kind == k {
                n += 1;
            }
            i += 1;
        }
        assert(self.entities@.take(i as int) =~= self.entities@);
        n
    }

    /// Index of the first entity of kind `k`, if any.
    pub fn find(&self, k: Kind) -> (r: Option<usize>)
        ensures
            r is None ==> forall|j: int|
                0 <= j < self.entities@.len() ==> (#[trigger] self.entities@[j]).kind != k,
            r matches Some(i) ==> i < self.entities@.len() && self.entities@[i as int].kind == k
                && forall|j: int| 0 <= j < i ==> (#[trigger] self.entities@[j]).kind != k,
    {
        let mut i: usize = 0;
        while i < self.entities.len()
            invariant
                0 <= i <= self.entities.len(),
                forall|j: int| 0 <= j < i ==> (#[trigger] self.entities@[j]).kind != k,
            decreases self.entities.len() - i,
        {
            if self.entities[i].kind == k {
                return Some(i);
            }
            i += 1;
        }
        None
    }

    /// Position of entity `i` in the world; a child sits at its parent's
    /// position plus its own offset.
    pub fn world_position(&self, i: usize) -> (r: (i64, i64))
        requires
            self.wf(),
            i < self.entities@.len(),
        ensures
            (r.0 as int, r.1 as int) == world_position_spec(self.entities@, i as int),
    {
        let e = self.entities[i];
        match e.parent {
            Some(p) => {
                let q = self.entities[p];
                (q.x as i64 + e.x as i64, q.y as i64 + e.y as i64)
            },
            None => (e.x as i64, e.y as i64),
        }
    }

    /// Indices of the entities of kind `k`, in table order.
    pub fn indices_of(&self, k: Kind) -> (r: Vec<usize>)
        ensures
            forall|j: int| 0 <= j < r@.len() ==> (#[trigger] r@[j]) < self.entities@.len()
                && self.entities@[r@[j] as int].kind == k,
            forall|i: int|
                0 <= i < self.entities@.len() && (#[trigger] self.entities@[i]).kind == k
                    ==> r@.contains(i as usize),
            forall|a: int, b: int| 0 <= a < b < r@.len() ==> r@[a] < r@[b],
    {
        let mut r: Vec<usize> = Vec::new();
        let mut i: usize = 0;
        while i < self.entities.len()
            invariant
                0 <= i <= self.entities.len(),
                forall|j: int| 0 <= j < r@.len() ==> (#[trigger] r@[j]) < i
                    && self.entities@[r@[j] as int].kind == k,
                forall|m: int|
                    0 <= m < i && (#[trigger] self.entities@[m]).kind == k ==> r@.contains(
                        m as usize,
                    ),
                forall|a: int, b: int| 0 <= a < b < r@.len() ==> r@[a] < r@[b],
            decreases self.entities.len() - i,
        {
            if self.entities[i].kind == k {
                let ghost before = r@;
                r.push(i);
                proof {
                    assert(r@[r@.len() - 1] == i);
                    assert forall|m: int|
                        0 <= m <= i && (#[trigger] self.entities@[m]).kind == k implies r@.contains(
                        m as usize,
                    ) by {
                        if m < i {
                            let j = choose|j: int| 0 <= j < before.len() && before[j] == m as usize;
                            assert(r@[j] == m as usize);
                        }
                    }
                }
            }
            i += 1;
        }
        r
    }
}

/// At startup there is exactly one camera, one player, one sensor and one
/// mob; the sensor is the player's child and sits where the player is.
pub proof fn lemma_startup_census()
    ensures
        count_kind(startup_entities(), Kind::Camera) == 1,
        count_kind(startup_entities(), Kind::Player) == 1,
        count_kind(startup_entities(), Kind::Sensor) == 1,
        count_kind(startup_entities(), Kind::Mob) == 1,
        startup_entities().len() == 4,
        startup_entities()[2].parent == Some(1usize),
        startup_entities()[1].kind == Kind::Player,
        links_wf(startup_entities()),
        world_position_spec(startup_entities(), 2) == world_position_spec(startup_entities(), 1),
        world_position_spec(startup_entities(), 3) == (3int, 0int),
{
    let s = startup_entities();
    reveal_with_fuel(count_kind, 5);
    assert(s.drop_last() =~= seq![camera_spec(), player_spec(), sensor_spec(1)]);
    assert(s.drop_last().drop_last() =~= seq![camera_spec(), player_spec()]);
    assert(s.drop_last().drop_last().drop_last() =~= seq![camera_spec()]);
    assert(s.drop_last().drop_last().drop_last().drop_last() =~= Seq::<Entity>::empty());
}

} // verus!
