use juicebox::error::Error;
use juicebox::simulation::sim_physics_engine::{
    calculate_cell_solids, collision_pairs_in_bucket, get_lookup_index, update_particle_lookup,
};
use juicebox::simulation::{SimConstraints, SimGrid, SimGridCellType};
use juicebox::juice_renderer::{is_even_grid_cell, solid_cells};

#[test]
fn default_grid_layout() {
    let grid = SimGrid::default();
    assert_eq!(grid.dimensions, (25, 25));
    assert_eq!(grid.cell_size, 10);
    assert_eq!(grid.cell_type.len(), 25);
    for row in grid.cell_type.iter() {
        assert_eq!(row.len(), 25);
        assert!(row.iter().all(|c| *c == SimGridCellType::Air));
    }
    assert_eq!(grid.spatial_lookup.len(), 625);
    assert!(grid.spatial_lookup.iter().all(|b| b.is_empty()));
}

#[test]
fn set_cell_type_out_of_bounds() {
    let mut grid = SimGrid::default();
    assert_eq!(
        grid.set_grid_cell_type(25, 0, SimGridCellType::Solid),
        Err(Error::OutOfGridBounds("X-coord. is out of bounds!"))
    );
    assert_eq!(
        grid.set_grid_cell_type(0, 25, SimGridCellType::Solid),
        Err(Error::OutOfGridBounds("Y-coord. is out of bounds!"))
    );
    assert_eq!(
        grid.set_grid_cell_type(30, 30, SimGridCellType::Solid),
        Err(Error::OutOfGridBounds("X-coord. is out of bounds!"))
    );
    assert!(grid.cell_type.iter().all(|r| r.iter().all(|c| *c == SimGridCellType::Air)));
}

#[test]
fn set_then_read_cell_type() {
    let mut grid = SimGrid::default();
    assert_eq!(grid.get_cell_type_value(19, 12), 1);
    assert_eq!(grid.set_grid_cell_type(19, 12, SimGridCellType::Solid), Ok(()));
    assert_eq!(grid.cell_type[19][12], SimGridCellType::Solid);
    assert_eq!(grid.get_cell_type_value(19, 12), 0);
    assert_eq!(grid.get_cell_type_value(12, 19), 1);
    assert_eq!(grid.set_grid_cell_type(19, 12, SimGridCellType::Fluid), Ok(()));
    assert_eq!(grid.get_cell_type_value(19, 12), 1);
}

#[test]
fn cell_type_value_outside_grid_is_zero() {
    let grid = SimGrid::default();
    assert_eq!(grid.get_cell_type_value(25, 0), 0);
    assert_eq!(grid.get_cell_type_value(0, 25), 0);
    assert_eq!(grid.get_cell_type_value(usize::MAX, 3), 0);
    assert_eq!(grid.get_cell_type_value(24, 24), 1);
}

#[test]
fn set_dimensions_and_cell_size() {
    let mut grid = SimGrid::default();
    assert_eq!(grid.set_grid_dimensions(40, 30), Ok(()));
    assert_eq!(grid.dimensions, (40, 30));
    assert_eq!(grid.cell_type.len(), 25);
    assert_eq!(grid.set_grid_cell_size(4), Ok(()));
    assert_eq!(grid.cell_size, 4);
}

#[test]
fn cell_solids_at_corner_and_middle() {
    let mut grid = SimGrid::default();
    assert_eq!(calculate_cell_solids(&grid, 0, 0), [0, 1, 0, 1]);
    assert_eq!(calculate_cell_solids(&grid, 5, 5), [1, 1, 1, 1]);
    assert_eq!(calculate_cell_solids(&grid, 24, 24), [1, 0, 1, 0]);
    grid.set_grid_cell_type(5, 4, SimGridCellType::Solid).unwrap();
    grid.set_grid_cell_type(5, 6, SimGridCellType::Solid).unwrap();
    assert_eq!(calculate_cell_solids(&grid, 5, 5), [0, 0, 1, 1]);
    grid.set_grid_cell_type(4, 5, SimGridCellType::Solid).unwrap();
    grid.set_grid_cell_type(6, 5, SimGridCellType::Solid).unwrap();
    assert_eq!(calculate_cell_solids(&grid, 5, 5), [0, 0, 0, 0]);
}

#[test]
fn cell_solids_left_neighbour_is_same_row() {
    let mut grid = SimGrid::default();
    grid.set_grid_cell_type(3, 9, SimGridCellType::Solid).unwrap();
    assert_eq!(calculate_cell_solids(&grid, 3, 10), [0, 1, 1, 1]);
    assert_eq!(calculate_cell_solids(&grid, 4, 9), [1, 1, 0, 1]);
    assert_eq!(calculate_cell_solids(&grid, 2, 9), [1, 1, 1, 0]);
    assert_eq!(calculate_cell_solids(&grid, 3, 8), [1, 0, 1, 1]);
}

#[test]
fn lookup_index_values() {
    assert_eq!(get_lookup_index(0, 0, 25), 0);
    assert_eq!(get_lookup_index(2, 3, 25), 53);
    assert_eq!(get_lookup_index(24, 24, 25), 624);
    assert_ne!(get_lookup_index(1, 0, 25), get_lookup_index(0, 1, 25));
}

#[test]
fn lookup_add_get_remove() {
    let mut grid = SimGrid::default();
    grid.add_particle_to_lookup(7, 3);
    grid.add_particle_to_lookup(9, 3);
    grid.add_particle_to_lookup(7, 3);
    assert_eq!(grid.get_particles_in_lookup(3), vec![7, 9, 7]);
    grid.remove_particle_from_lookup(7, 3);
    assert_eq!(grid.get_particles_in_lookup(3), vec![9]);
    grid.remove_particle_from_lookup(42, 3);
    assert_eq!(grid.get_particles_in_lookup(3), vec![9]);
    assert!(grid.get_particles_in_lookup(4).is_empty());
}

#[test]
fn update_lookup_moves_particle() {
    let mut grid = SimGrid::default();
    let mut index: usize = 0;
    grid.add_particle_to_lookup(5, 0);
    grid.add_particle_to_lookup(6, 0);
    update_particle_lookup(5, &mut index, &mut grid, 53);
    assert_eq!(index, 53);
    assert_eq!(grid.get_particles_in_lookup(0), vec![6]);
    assert_eq!(grid.get_particles_in_lookup(53), vec![5]);
    let cells_holding_5: usize = grid.spatial_lookup.iter().filter(|b| b.contains(&5)).count();
    assert_eq!(cells_holding_5, 1);
}

#[test]
fn update_lookup_keeps_particle_already_filed() {
    let mut grid = SimGrid::default();
    let mut index: usize = 10;
    grid.add_particle_to_lookup(5, 10);
    update_particle_lookup(5, &mut index, &mut grid, 10);
    assert_eq!(index, 10);
    assert_eq!(grid.get_particles_in_lookup(10), vec![5]);
}

#[test]
fn collision_pairs_skip_self() {
    assert_eq!(
        collision_pairs_in_bucket(&vec![1, 2, 3]),
        vec![(1, 2), (1, 3), (2, 1), (2, 3), (3, 1), (3, 2)]
    );
    assert_eq!(collision_pairs_in_bucket(&vec![1, 1, 2]), vec![(1, 2), (1, 2), (2, 1), (2, 1)]);
    assert!(collision_pairs_in_bucket(&vec![4]).is_empty());
    assert!(collision_pairs_in_bucket(&vec![]).is_empty());
}

#[test]
fn toggle_pause_and_timestep() {
    let mut constraints = SimConstraints::default();
    assert_eq!(constraints.iterations_per_frame, 5);
    SimConstraints::toggle_simulation_pause(&mut constraints);
    assert_eq!(constraints.iterations_per_frame, 0);
    SimConstraints::toggle_simulation_pause(&mut constraints);
    assert_eq!(constraints.iterations_per_frame, 5);
    SimConstraints::change_timestep(&mut constraints, 9);
    assert_eq!(constraints.iterations_per_frame, 9);
    SimConstraints::toggle_simulation_pause(&mut constraints);
    SimConstraints::toggle_simulation_pause(&mut constraints);
    assert_eq!(constraints.iterations_per_frame, 5);
}

#[test]
fn solid_cells_in_row_major_order() {
    let mut grid = SimGrid::default();
    assert!(solid_cells(&grid).is_empty());
    for (r, c) in [(20, 15), (19, 12), (20, 12), (20, 13), (20, 14), (19, 15)] {
        grid.set_grid_cell_type(r, c, SimGridCellType::Solid).unwrap();
    }
    assert_eq!(
        solid_cells(&grid),
        vec![(19, 12), (19, 15), (20, 12), (20, 13), (20, 14), (20, 15)]
    );
}

#[test]
fn checkerboard_parity() {
    assert!(is_even_grid_cell(0, 0));
    assert!(!is_even_grid_cell(0, 1));
    assert!(is_even_grid_cell(3, 5));
    assert!(!is_even_grid_cell(10, 3));
}

#[test]
fn reset_lookup_after_resize() {
    let mut grid = SimGrid::default();
    grid.add_particle_to_lookup(3, 100);
    grid.set_grid_dimensions(10, 12).unwrap();
    grid.reset_spatial_lookup();
    assert_eq!(grid.spatial_lookup.len(), 120);
    assert!(grid.spatial_lookup.iter().all(|b| b.is_empty()));
    assert_eq!(grid.cell_type.len(), 25);
}

#[test]
fn shrunk_grid_refuses_cells_outside() {
    let mut grid = SimGrid::default();
    grid.set_grid_dimensions(10, 10).unwrap();
    assert_eq!(
        grid.set_grid_cell_type(12, 0, SimGridCellType::Solid),
        Err(Error::OutOfGridBounds("X-coord. is out of bounds!"))
    );
    assert_eq!(grid.get_cell_type_value(12, 0), 0);
    assert_eq!(grid.set_grid_cell_type(9, 9, SimGridCellType::Solid), Ok(()));
    assert_eq!(grid.get_cell_type_value(9, 9), 0);
}

#[test]
fn remove_undoes_add_in_lookup() {
    let mut grid = SimGrid::default();
    grid.add_particle_to_lookup(1, 7);
    grid.add_particle_to_lookup(2, 7);
    let before = grid.get_particles_in_lookup(7);
    grid.add_particle_to_lookup(3, 7);
    grid.remove_particle_from_lookup(3, 7);
    assert_eq!(grid.get_particles_in_lookup(7), before);
}

#[test]
fn setting_old_type_back_undoes_set() {
    let mut grid = SimGrid::default();
    grid.set_grid_cell_type(3, 4, SimGridCellType::Solid).unwrap();
    grid.set_grid_cell_type(3, 4, SimGridCellType::Air).unwrap();
    assert!(grid.cell_type.iter().all(|r| r.iter().all(|c| *c == SimGridCellType::Air)));
}

#[test]
fn relocation_leaves_other_particles() {
    let mut grid = SimGrid::default();
    let mut index_a: usize = 0;
    grid.add_particle_to_lookup(10, 0);
    grid.add_particle_to_lookup(11, 0);
    grid.add_particle_to_lookup(12, 5);
    update_particle_lookup(10, &mut index_a, &mut grid, 5);
    assert_eq!(grid.get_particles_in_lookup(0), vec![11]);
    assert_eq!(grid.get_particles_in_lookup(5), vec![12, 10]);
    assert_eq!(index_a, 5);
}
