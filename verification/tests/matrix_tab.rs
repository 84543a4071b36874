use rusty_mapper::matrix::{AspectRatio, GridPosition, GridSize, Orientation, VideoMatrixConfig};
use rusty_mapper::ui::MatrixTabState;

#[test]
fn matrix_tab_defaults() {
    let t = MatrixTabState::new();
    assert_eq!((t.input_grid_cols, t.input_grid_rows), (3, 3));
    assert_eq!((t.output_grid_cols, t.output_grid_rows), (3, 3));
    assert_eq!(t.aspect_ratio, 1);
    assert_eq!(t.apriltag_expected_screens, 2);
    assert!(!t.apriltag_showing_pattern);
}

#[test]
fn matrix_tab_clamps_edited_fields() {
    let mut t = MatrixTabState::new();
    t.input_grid_cols = 12;
    t.input_grid_rows = 0;
    t.output_grid_cols = 2;
    t.output_grid_rows = -4;
    t.selected_input_cell = 40;
    t.selected_output_col = 5;
    t.selected_output_row = -1;
    t.clamp_fields();
    assert_eq!((t.input_grid_cols, t.input_grid_rows), (9, 1));
    assert_eq!((t.output_grid_cols, t.output_grid_rows), (2, 1));
    assert_eq!(t.selected_input_cell, 8);
    assert_eq!((t.selected_output_col, t.selected_output_row), (1, 0));
}

#[test]
fn matrix_tab_edits_the_configuration() {
    let mut t = MatrixTabState::new();
    t.selected_input_cell = 4;
    t.selected_output_col = 2;
    t.selected_output_row = 1;
    t.aspect_ratio = 4;
    t.orientation = 3;
    t.input_source = 1;
    let mut config = VideoMatrixConfig::new(GridSize::new(3, 3));
    t.add_mapping(&mut config);
    assert_eq!(config.input_grid.mappings.len(), 1);
    let m = config.input_grid.mappings[0];
    assert_eq!(m.output_position, GridPosition::new(2, 1, 1, 1));
    assert_eq!(m.aspect_ratio, AspectRatio::Ratio21_9);
    assert_eq!(m.orientation, Orientation::Rotated270);

    t.input_grid_cols = 2;
    t.input_grid_rows = 2;
    let applied = t.apply_grid(&config);
    assert_eq!(applied.input_grid.input_source, 2);
    assert!(applied.input_grid.mappings.is_empty());

    let removed = t.remove_mapping(&mut config).unwrap();
    assert_eq!(removed.output_position, GridPosition::new(2, 1, 1, 1));
    assert!(t.remove_mapping(&mut config).is_none());
}

#[test]
fn matrix_tab_presets_and_pattern() {
    let mut t = MatrixTabState::new();
    let c = t.apply_preset(AspectRatio::Ratio4_3, AspectRatio::Ratio16_9);
    assert_eq!((t.input_grid_cols, t.input_grid_rows, t.output_grid_cols, t.output_grid_rows), (2, 1, 2, 1));
    assert_eq!(c.input_grid.mappings[0].aspect_ratio, AspectRatio::Ratio4_3);
    assert!(t.toggle_pattern());
    assert!(!t.toggle_pattern());
    assert_eq!(t.detection_output_grid(), GridSize::new(2, 1));
}
