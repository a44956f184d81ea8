use viewer_core::instance::{
    instance_grid, Instance, Position, Rotation, NUM_INSTANCES, NUM_INSTANCES_PER_ROW,
    ROTATION_DEGREES, SPACE_BETWEEN,
};

#[test]
fn grid_has_one_hundred_instances() {
    assert_eq!(NUM_INSTANCES_PER_ROW, 10);
    assert_eq!(NUM_INSTANCES, 100);
    assert_eq!(instance_grid().len(), 100);
}

#[test]
fn centre_instance_stands_unturned_at_the_origin() {
    let grid = instance_grid();
    let centre = grid[5 * 10 + 5];
    assert_eq!(centre.position, Position { x: 0, y: 0, z: 0 });
    assert_eq!(centre.rotation, Rotation::Identity);
    assert_eq!(Instance::at(5, 5), centre);
}

#[test]
fn only_the_instance_at_the_origin_is_unturned() {
    let grid = instance_grid();
    let origin = Position { x: 0, y: 0, z: 0 };
    for instance in &grid {
        assert_eq!(instance.rotation == Rotation::Identity, instance.position == origin);
    }
    assert_eq!(grid.iter().filter(|i| i.rotation == Rotation::Identity).count(), 1);
}

#[test]
fn grid_runs_row_after_row_three_units_apart() {
    let grid = instance_grid();
    assert_eq!(SPACE_BETWEEN, 3);
    assert_eq!(grid[0].position, Position { x: -15, y: 0, z: -15 });
    assert_eq!(grid[1].position, Position { x: -12, y: 0, z: -15 });
    assert_eq!(grid[9].position, Position { x: 12, y: 0, z: -15 });
    assert_eq!(grid[10].position, Position { x: -15, y: 0, z: -12 });
    assert_eq!(grid[99].position, Position { x: 12, y: 0, z: 12 });
    for z in 0..10u32 {
        for x in 0..10u32 {
            assert_eq!(grid[(z * 10 + x) as usize], Instance::at(x, z));
            let expected = (3.0 * (x as f32 - 10.0 / 2.0), 0.0f32, 3.0 * (z as f32 - 10.0 / 2.0));
            let p = grid[(z * 10 + x) as usize].position;
            assert_eq!((p.x as f32, p.y as f32, p.z as f32), expected);
        }
    }
}

#[test]
fn instances_away_from_the_origin_turn_about_their_own_position() {
    let grid = instance_grid();
    assert_eq!(ROTATION_DEGREES, 45);
    assert_eq!(
        grid[0].rotation,
        Rotation::AxisAngle { axis: Position { x: -15, y: 0, z: -15 }, degrees: 45 }
    );
    assert_eq!(
        grid[56].rotation,
        Rotation::AxisAngle { axis: Position { x: 3, y: 0, z: 0 }, degrees: 45 }
    );
}
