use rusty_mapper::matrix::{
    create_matrix_config, create_two_screen_config, screen_order, AspectRatio, DetectedScreenInfo, GridPosition,
    GridSize, MatrixConfigError, Orientation, TagPlacement,
};

#[test]
fn test_tag_placement_variants() {
    assert!(matches!(TagPlacement::Centered, TagPlacement::Centered));
    assert!(matches!(TagPlacement::TopLeft, TagPlacement::TopLeft));
}

#[test]
fn test_two_screen_config() {
    let config = create_two_screen_config(AspectRatio::Ratio4_3, AspectRatio::Ratio16_9);

    assert_eq!(config.output_grid.columns, 2);
    assert_eq!(config.output_grid.rows, 1);
    assert_eq!(config.input_grid.mappings.len(), 2);

    // Check first mapping
    let mapping0 = &config.input_grid.mappings[0];
    assert_eq!(mapping0.input_cell, 0);
    assert!(matches!(mapping0.aspect_ratio, AspectRatio::Ratio4_3));

    // Check second mapping
    let mapping1 = &config.input_grid.mappings[1];
    assert_eq!(mapping1.input_cell, 1);
    assert!(matches!(mapping1.aspect_ratio, AspectRatio::Ratio16_9));
}

#[test]
fn tag_placement_default_is_centered() {
    assert_eq!(TagPlacement::default(), TagPlacement::Centered);
}

#[test]
fn two_screen_config_positions_and_ids() {
    let config = create_two_screen_config(AspectRatio::Ratio16_9, AspectRatio::Ratio4_3);
    assert_eq!(config.input_grid.grid_size, GridSize::new(2, 1));
    assert!(!config.auto_detect);
    assert_eq!(config.input_grid.mappings[0].output_position, GridPosition::new(0, 0, 1, 1));
    assert_eq!(config.input_grid.mappings[1].output_position, GridPosition::new(1, 0, 1, 1));
    assert_eq!(config.input_grid.mappings[0].display_id, Some(0));
    assert_eq!(config.input_grid.mappings[1].display_id, Some(1));
}

fn screen(id: u32) -> DetectedScreenInfo {
    DetectedScreenInfo { screen_id: id, aspect_ratio: AspectRatio::Ratio16_9, orientation: Orientation::Normal }
}

#[test]
fn matrix_config_without_screens_is_an_error() {
    let r = create_matrix_config(&[], GridSize::new(3, 3));
    assert_eq!(r.err(), Some(MatrixConfigError::NoScreensDetected));
}

#[test]
fn matrix_config_places_screens_by_tag_id() {
    // 3x3 grid: id 4 -> (1, 1), id 7 -> (1, 2)
    let screens = [screen(4), screen(7)];
    let config = create_matrix_config(&screens, GridSize::new(3, 3)).unwrap();
    assert!(config.auto_detect);
    assert_eq!(config.input_grid.grid_size, GridSize::new(2, 1));
    assert_eq!(config.input_grid.mappings.len(), 2);
    assert_eq!(config.input_grid.mappings[0].output_position, GridPosition::new(1, 1, 1, 1));
    assert_eq!(config.input_grid.mappings[0].input_cell, 0);
    assert_eq!(config.input_grid.mappings[0].display_id, Some(4));
    assert_eq!(config.input_grid.mappings[1].output_position, GridPosition::new(1, 2, 1, 1));
    assert_eq!(config.input_grid.mappings[1].input_cell, 1);
}

#[test]
fn matrix_config_skips_ids_outside_the_grid() {
    let mut far = screen(9);
    far.orientation = Orientation::Rotated90;
    let mut near = screen(2);
    near.aspect_ratio = AspectRatio::Ratio21_9;
    near.orientation = Orientation::Rotated270;
    let screens = [far, near];
    let config = create_matrix_config(&screens, GridSize::new(3, 3)).unwrap();
    assert_eq!(config.input_grid.mappings.len(), 1);
    let m = &config.input_grid.mappings[0];
    assert_eq!(m.input_cell, 1);
    assert_eq!(m.output_position, GridPosition::new(2, 0, 1, 1));
    assert_eq!(m.aspect_ratio, AspectRatio::Ratio21_9);
    assert_eq!(m.orientation, Orientation::Rotated270);
    assert_eq!(config.output_grid, GridSize::new(3, 3));
}

#[test]
fn screens_are_listed_by_tag_id_stably() {
    assert_eq!(screen_order(&[5, 1, 3, 1, 0]), vec![4, 1, 3, 2, 0]);
    assert_eq!(screen_order(&[]), Vec::<usize>::new());
    assert_eq!(screen_order(&[2, 2, 2]), vec![0, 1, 2]);
}
