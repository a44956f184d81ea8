//! The grid of instances the model is drawn at.

use vstd::prelude::*;

verus! {

/// Instances along one side of the grid.
pub const NUM_INSTANCES_PER_ROW: u32 = 10;

/// Instances in the whole grid.
pub const NUM_INSTANCES: u32 = NUM_INSTANCES_PER_ROW * NUM_INSTANCES_PER_ROW;

/// Distance between neighbours, in whole units.
pub const SPACE_BETWEEN: i32 = 3;

/// The angle every instance away from the origin is turned by.
pub const ROTATION_DEGREES: u32 = 45;

/// A point with whole-number coordinates.
#[derive(Clone, Copy, PartialEq, Eq, Structural, Debug)]
pub struct Position {
    pub x: i32,
    pub y: i32,
    pub z: i32,
}

/// How an instance is turned.
#[derive(Clone, Copy, PartialEq, Eq, Structural, Debug)]
pub enum Rotation {
    /// Not at all.
    Identity,
    /// By `degrees` about the axis from the origin through `axis`.
    AxisAngle { axis: Position, degrees: u32 },
}

/// One placement of the model.
#[derive(Clone, Copy, PartialEq, Eq, Structural, Debug)]
pub struct Instance {
    pub position: Position,
    pub rotation: Rotation,
}

/// The origin.
pub open spec fn origin() -> Position {
    Position { x: 0, y: 0, z: 0 }
}

/// Where the instance in column `x` of row `z` stands: on the plane `y = 0`,
/// [`SPACE_BETWEEN`] apart from its neighbours, the grid shifted by half its
/// side so that it surrounds the origin.
pub open spec fn grid_position(x: int, z: int) -> Position {
    Position {
        x: (SPACE_BETWEEN * (x - NUM_INSTANCES_PER_ROW / 2)) as i32,
        y: 0,
        z: (SPACE_BETWEEN * (z - NUM_INSTANCES_PER_ROW / 2)) as i32,
    }
}

/// The instance in column `x` of row `z`: unturned at the origin, elsewhere
/// turned by [`ROTATION_DEGREES`] about the axis through its own position.
pub open spec fn grid_instance(x: int, z: int) -> Instance {
    let position = grid_position(x, z);
    Instance {
        position,
        rotation: if position == origin() {
            Rotation::Identity
        } else {
            Rotation::AxisAngle { axis: position, degrees: ROTATION_DEGREES }
        },
    }
}

/// The whole grid, row after row.
pub open spec fn grid() -> Seq<Instance> {
    Seq::new(
        NUM_INSTANCES as nat,
        |k: int|
            grid_instance(k % (NUM_INSTANCES_PER_ROW as int), k / (NUM_INSTANCES_PER_ROW as int)),
    )
}

impl Instance {
    /// The instance in column `x` of row `z` of the grid.
    pub fn at(x: u32, z: u32) -> (instance: Instance)
        requires
            x < NUM_INSTANCES_PER_ROW,
            z < NUM_INSTANCES_PER_ROW,
        ensures
            instance == grid_instance(x as int, z as int),
    {
        let half: i32 = (NUM_INSTANCES_PER_ROW / 2) as i32;
        let position = Position {
            x: SPACE_BETWEEN * (x as i32 - half),
            y: 0,
            z: SPACE_BETWEEN * (z as i32 - half),
        };
        let rotation = if position.x == 0 && position.y == 0 && position.z == 0 {
            Rotation::Identity
        } else {
            Rotation::AxisAngle { axis: position, degrees: ROTATION_DEGREES }
        };
        Instance { position, rotation }
    }
}

/// Builds the grid, row after row.
pub fn instance_grid() -> (instances: Vec<Instance>)
    ensures
        instances@ == grid(),
        instances@.len() == 100,
{
    let mut instances: Vec<Instance> = Vec::new();
    let mut z: u32 = 0;
    while z < NUM_INSTANCES_PER_ROW
        invariant
            z <= NUM_INSTANCES_PER_ROW,
            instances@.len() == z * NUM_INSTANCES_PER_ROW,
            forall|k: int| 0 <= k < instances@.len() ==> instances@[k] == grid()[k],
        decreases NUM_INSTANCES_PER_ROW - z,
    {
        let mut x: u32 = 0;
        while x < NUM_INSTANCES_PER_ROW
            invariant
                z < NUM_INSTANCES_PER_ROW,
                x <= NUM_INSTANCES_PER_ROW,
                instances@.len() == z * NUM_INSTANCES_PER_ROW + x,
                forall|k: int| 0 <= k < instances@.len() ==> instances@[k] == grid()[k],
            decreases NUM_INSTANCES_PER_ROW - x,
        {
            let ghost k = instances@.len() as int;
            assert(k % 10 == x && k / 10 == z);
            instances.push(Instance::at(x, z));
            x += 1;
        }
        z += 1;
    }
    assert(instances@ =~= grid());
    instances
}

/// In the grid, an instance is unturned exactly if it stands at the origin,
/// and the one that does is the one in column 5 of row 5.
pub proof fn lemma_unturned_at_origin_only(x: int, z: int)
    requires
        0 <= x < NUM_INSTANCES_PER_ROW,
        0 <= z < NUM_INSTANCES_PER_ROW,
    ensures
        grid_instance(x, z).rotation == Rotation::Identity <==> grid_instance(x, z).position
            == origin(),
        grid_instance(x, z).position == origin() <==> (x == 5 && z == 5),
        grid()[z * NUM_INSTANCES_PER_ROW + x] == grid_instance(x, z),
{
    let k = z * NUM_INSTANCES_PER_ROW + x;
    assert(k % 10 == x && k / 10 == z);
}

} // verus!
