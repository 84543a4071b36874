use rusty_mapper::matrix::{
    aspect_ratio_from_index, create_two_screen_config, input_grid_row_text, orientation_from_index,
    AspectRatio, GridCellMapping, GridPosition, GridSize, InputGridConfig, Orientation,
    VideoMatrixConfig,
};

#[test]
fn aspect_and_orientation_indices() {
    assert_eq!(aspect_ratio_from_index(0), AspectRatio::Ratio4_3);
    assert_eq!(aspect_ratio_from_index(2), AspectRatio::Ratio16_10);
    assert_eq!(aspect_ratio_from_index(3), AspectRatio::Ratio1_1);
    assert_eq!(aspect_ratio_from_index(4), AspectRatio::Ratio21_9);
    assert_eq!(aspect_ratio_from_index(17), AspectRatio::Ratio16_9);
    assert_eq!(orientation_from_index(1), Orientation::Rotated90);
    assert_eq!(orientation_from_index(2), Orientation::Rotated180);
    assert_eq!(orientation_from_index(3), Orientation::Rotated270);
    assert_eq!(orientation_from_index(9), Orientation::Normal);
}

#[test]
fn set_cell_mapping_replaces_the_old_mapping() {
    let mut config = create_two_screen_config(AspectRatio::Ratio16_9, AspectRatio::Ratio16_9);
    config.set_cell_mapping(0, 2, 1, 0, 1);
    assert_eq!(config.input_grid.mappings.len(), 2);
    assert_eq!(config.input_grid.mappings[0].input_cell, 1);
    let last = &config.input_grid.mappings[1];
    assert_eq!(last.input_cell, 0);
    assert_eq!(last.output_position, GridPosition::new(2, 1, 1, 1));
    assert_eq!(last.aspect_ratio, AspectRatio::Ratio4_3);
    assert_eq!(last.orientation, Orientation::Rotated90);
    assert_eq!(last.display_id, None);
    assert!(last.enabled);
}

#[test]
fn remove_and_clear_cell_mappings() {
    let mut config = create_two_screen_config(AspectRatio::Ratio16_9, AspectRatio::Ratio4_3);
    let removed = config.remove_cell_mapping(1).unwrap();
    assert_eq!(removed.aspect_ratio, AspectRatio::Ratio4_3);
    assert!(config.remove_cell_mapping(1).is_none());
    assert_eq!(config.input_grid.mappings.len(), 1);
    config.clear_cell_mappings();
    assert!(config.input_grid.mappings.is_empty());
    assert_eq!(config.output_grid, GridSize::new(2, 1));
}

#[test]
fn apply_grid_config_keeps_fitting_mappings() {
    let mut config = VideoMatrixConfig::new(GridSize::new(3, 3));
    config.set_cell_mapping(0, 0, 0, 1, 0);
    config.set_cell_mapping(5, 1, 0, 1, 0);
    config.set_cell_mapping(2, 2, 0, 1, 0);
    let applied = config.apply_grid_config(2, 2, 4, 1, 2);
    assert_eq!(applied.input_grid.grid_size, GridSize::new(2, 2));
    assert_eq!(applied.input_grid.input_source, 2);
    assert_eq!(applied.output_grid, GridSize::new(4, 1));
    let cells: Vec<usize> = applied.input_grid.mappings.iter().map(|m| m.input_cell).collect();
    assert_eq!(cells, vec![0, 2]);
    assert!(!applied.auto_detect);
}

#[test]
fn input_grid_add_and_remove_first() {
    let mut grid = InputGridConfig::new(GridSize::new(2, 2));
    assert_eq!(grid.input_source, 1);
    assert_eq!(grid.total_cells(), 4);
    grid.add_mapping(GridCellMapping::new(3, GridPosition::new(0, 0, 1, 1)));
    grid.add_mapping(GridCellMapping::new(1, GridPosition::new(1, 0, 1, 1)));
    grid.add_mapping(GridCellMapping::new(3, GridPosition::new(0, 1, 1, 1)));
    let r = grid.remove_mapping(3).unwrap();
    assert_eq!(r.output_position, GridPosition::new(0, 0, 1, 1));
    assert_eq!(grid.mappings.len(), 2);
    assert_eq!(grid.mappings[1].output_position, GridPosition::new(0, 1, 1, 1));
}

#[test]
fn grid_views_text() {
    assert_eq!(input_grid_row_text(0, 3, 1), "[0] [X] [2] ");
    assert_eq!(input_grid_row_text(3, 4, 99), "[12] [13] [14] [15] ");
    let mut config = VideoMatrixConfig::new(GridSize::new(3, 1)).with_output_grid(GridSize::new(3, 2));
    config.set_cell_mapping(0, 1, 0, 1, 0);
    config.set_cell_mapping(1, 2, 1, 1, 0);
    assert_eq!(config.output_grid_row_text(0, 3, 1, 0), "[ ] [#] [ ] ");
    assert_eq!(config.output_grid_row_text(1, 3, 0, 1), "[.] [ ] [M] ");
    assert!(config.output_cell_mapped(2, 1));
    assert!(!config.output_cell_mapped(0, 0));
}

#[test]
fn disabled_mappings_do_not_show() {
    let mut config = VideoMatrixConfig::new(GridSize::new(1, 1));
    let mut m = GridCellMapping::new(0, GridPosition::new(0, 0, 1, 1));
    m.enabled = false;
    config.input_grid.add_mapping(m);
    assert!(!config.output_cell_mapped(0, 0));
}
