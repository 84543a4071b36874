//! # Control window state
//!
//! The tabs of the control window and the limits that its numeric fields
//! are held to.

use vstd::prelude::*;
use crate::matrix::{
    create_two_screen_config, edited_mapping, first_mapping_of, mappings_below, unit_cell,
    without_cell, AspectRatio, GridCellMapping, GridSize, Orientation, VideoMatrixConfig,
};

verus! {

/// Main GUI tabs.
#[derive(Debug, Clone, Copy, PartialEq, Eq, Structural)]
pub enum MainTab {
    Inputs,
    Mapping,
    Matrix,
    Output,
    Settings,
}

/// The tabs in the order the tab bar shows them.
pub fn main_tabs() -> (tabs: Vec<MainTab>)
    ensures
        tabs@ == seq![
            MainTab::Inputs,
            MainTab::Mapping,
            MainTab::Matrix,
            MainTab::Output,
            MainTab::Settings,
        ],
{
    vec![MainTab::Inputs, MainTab::Mapping, MainTab::Matrix, MainTab::Output, MainTab::Settings]
}

/// "Edit Mapping" on input `input_num` (1 or 2) switches to the Mapping tab
/// with that input (0-based) selected.
pub fn edit_mapping_target(input_num: i32) -> (t: (MainTab, i32))
    requires
        input_num > i32::MIN,
    ensures
        t.0 == MainTab::Mapping,
        t.1 == input_num - 1,
{
    (MainTab::Mapping, input_num - 1)
}

/// `value` limited to `lo..=hi`.
pub open spec fn clamped(value: int, lo: int, hi: int) -> int {
    if value < lo {
        lo
    } else if value > hi {
        hi
    } else {
        value
    }
}

/// Grid sizes typed into the matrix tab are held to 1..=9.
pub fn clamp_grid_dimension(value: i32) -> (v: i32)
    ensures
        v == clamped(value as int, 1, 9),
{
    if value < 1 {
        1
    } else if value > 9 {
        9
    } else {
        value
    }
}

/// The selected input cell is held to `0..=total_cells - 1` (to 0 when
/// there are no cells).
pub fn clamp_input_cell(value: i32, total_cells: usize) -> (v: i32)
    requires
        total_cells <= i32::MAX + 1,
    ensures
        v == clamped(
            value as int,
            0,
            if total_cells == 0 {
                0
            } else {
                total_cells - 1
            },
        ),
{
    let hi: i32 = if total_cells == 0 {
        0
    } else {
        (total_cells - 1) as i32
    };
    if value < 0 {
        0
    } else if value > hi {
        hi
    } else {
        value
    }
}

/// A selected output column or row is held to `0..=count - 1`.
pub fn clamp_output_index(value: i32, count: i32) -> (v: i32)
    requires
        count >= 1,
    ensures
        v == clamped(value as int, 0, count - 1),
{
    let hi = count - 1;
    if value < 0 {
        0
    } else if value > hi {
        hi
    } else {
        value
    }
}

/// Pick up the device lists found by background discovery: when it found
/// any webcam or NDI source, the control window's lists become the found
/// ones; otherwise they stay.
pub fn sync_discovered_devices(
    webcams: &mut Vec<String>,
    ndi_sources: &mut Vec<String>,
    found_webcams: &Vec<String>,
    found_ndi: &Vec<String>,
)
    ensures
        (found_webcams@.len() > 0 || found_ndi@.len() > 0) ==> final(webcams)@ == found_webcams@
            && final(ndi_sources)@ == found_ndi@,
        !(found_webcams@.len() > 0 || found_ndi@.len() > 0) ==> final(webcams)@ == old(webcams)@
            && final(ndi_sources)@ == old(ndi_sources)@,
{
    if found_webcams.len() > 0 || found_ndi.len() > 0 {
        let w = found_webcams.clone();
        assert(w@ =~= found_webcams@);
        *webcams = w;
        let n = found_ndi.clone();
        assert(n@ =~= found_ndi@);
        *ndi_sources = n;
    }
}

/// The fields of the control window's Matrix tab.
#[derive(Debug, Clone, PartialEq)]
pub struct MatrixTabState {
    pub input_grid_cols: i32,
    pub input_grid_rows: i32,
    pub output_grid_cols: i32,
    pub output_grid_rows: i32,
    pub selected_input_cell: i32,
    pub selected_output_col: i32,
    pub selected_output_row: i32,
    /// Index into 4:3, 16:9, 16:10, 1:1, 21:9.
    pub aspect_ratio: usize,
    /// Index into 0°, 90°, 180°, 270°.
    pub orientation: usize,
    /// 0 for input 1, 1 for input 2.
    pub input_source: i32,
    pub apriltag_expected_screens: i32,
    pub apriltag_showing_pattern: bool,
}

/// The Matrix tab's fields are within their limits: grid sizes 1..=9, the
/// selected input cell inside the input grid, the selected output position
/// inside the output grid.
pub open spec fn matrix_tab_clamped(t: MatrixTabState) -> bool {
    &&& 1 <= t.input_grid_cols <= 9
    &&& 1 <= t.input_grid_rows <= 9
    &&& 1 <= t.output_grid_cols <= 9
    &&& 1 <= t.output_grid_rows <= 9
    &&& 0 <= t.selected_input_cell < t.input_grid_cols * t.input_grid_rows
    &&& 0 <= t.selected_output_col < t.output_grid_cols
    &&& 0 <= t.selected_output_row < t.output_grid_rows
}

impl MatrixTabState {
    /// 3×3 input and output grids, first cell and position selected, 16:9
    /// without rotation, input 1, two screens expected, no pattern shown.
    pub fn new() -> (t: Self)
        ensures
            t == (MatrixTabState {
                input_grid_cols: 3,
                input_grid_rows: 3,
                output_grid_cols: 3,
                output_grid_rows: 3,
                selected_input_cell: 0,
                selected_output_col: 0,
                selected_output_row: 0,
                aspect_ratio: 1,
                orientation: 0,
                input_source: 0,
                apriltag_expected_screens: 2,
                apriltag_showing_pattern: false,
            }),
            matrix_tab_clamped(t),
    {
        MatrixTabState {
            input_grid_cols: 3,
            input_grid_rows: 3,
            output_grid_cols: 3,
            output_grid_rows: 3,
            selected_input_cell: 0,
            selected_output_col: 0,
            selected_output_row: 0,
            aspect_ratio: 1,
            orientation: 0,
            input_source: 0,
            apriltag_expected_screens: 2,
            apriltag_showing_pattern: false,
        }
    }

    /// Hold the edited fields to their limits.
    pub fn clamp_fields(&mut self)
        ensures
            matrix_tab_clamped(*final(self)),
            final(self).input_grid_cols == clamped(old(self).input_grid_cols as int, 1, 9),
            final(self).input_grid_rows == clamped(old(self).input_grid_rows as int, 1, 9),
            final(self).output_grid_cols == clamped(old(self).output_grid_cols as int, 1, 9),
            final(self).output_grid_rows == clamped(old(self).output_grid_rows as int, 1, 9),
            final(self).selected_input_cell == clamped(
                old(self).selected_input_cell as int,
                0,
                final(self).input_grid_cols * final(self).input_grid_rows - 1,
            ),
            final(self).selected_output_col == clamped(
                old(self).selected_output_col as int,
                0,
                final(self).output_grid_cols - 1,
            ),
            final(self).selected_output_row == clamped(
                old(self).selected_output_row as int,
                0,
                final(self).output_grid_rows - 1,
            ),
            final(self).aspect_ratio == old(self).aspect_ratio,
            final(self).orientation == old(self).orientation,
            final(self).input_source == old(self).input_source,
            final(self).apriltag_expected_screens == old(self).apriltag_expected_screens,
            final(self).apriltag_showing_pattern == old(self).apriltag_showing_pattern,
    {
        self.input_grid_cols = clamp_grid_dimension(self.input_grid_cols);
        self.input_grid_rows = clamp_grid_dimension(self.input_grid_rows);
        self.output_grid_cols = clamp_grid_dimension(self.output_grid_cols);
        self.output_grid_rows = clamp_grid_dimension(self.output_grid_rows);
        assert(1 <= self.input_grid_cols * self.input_grid_rows <= 81) by (nonlinear_arith)
            requires
                1 <= self.input_grid_cols <= 9,
                1 <= self.input_grid_rows <= 9,
        ;
        let total_input_cells = (self.input_grid_cols * self.input_grid_rows) as usize;
        self.selected_input_cell = clamp_input_cell(self.selected_input_cell, total_input_cells);
        self.selected_output_col = clamp_output_index(self.selected_output_col, self.output_grid_cols);
        self.selected_output_row = clamp_output_index(self.selected_output_row, self.output_grid_rows);
    }

    /// The configuration after "Apply Grid Configuration": the tab's grid
    /// sizes and input source, keeping the mappings of `current` that fit.
    pub fn apply_grid(&self, current: &VideoMatrixConfig) -> (c: VideoMatrixConfig)
        requires
            (self.input_grid_cols as u32) * (self.input_grid_rows as u32) <= usize::MAX,
            self.input_source < i32::MAX,
        ensures
            c.input_grid.grid_size == (GridSize {
                columns: self.input_grid_cols as u32,
                rows: self.input_grid_rows as u32,
            }),
            c.input_grid.input_source == (self.input_source + 1) as u8,
            c.input_grid.mappings@ == mappings_below(
                current.input_grid.mappings@,
                (self.input_grid_cols as u32) * (self.input_grid_rows as u32),
            ),
            c.output_grid == (GridSize {
                columns: self.output_grid_cols as u32,
                rows: self.output_grid_rows as u32,
            }),
            !c.auto_detect,
    {
        current.apply_grid_config(
            self.input_grid_cols as u32,
            self.input_grid_rows as u32,
            self.output_grid_cols as u32,
            self.output_grid_rows as u32,
            (self.input_source + 1) as u8,
        )
    }

    /// "Add/Update Mapping": map the selected input cell to the selected
    /// output position with the chosen aspect ratio and orientation.
    pub fn add_mapping(&self, config: &mut VideoMatrixConfig)
        ensures
            final(config).input_grid.mappings@ == without_cell(
                old(config).input_grid.mappings@,
                self.selected_input_cell as usize,
            ).push(
                edited_mapping(
                    self.selected_input_cell as usize,
                    self.selected_output_col as u32,
                    self.selected_output_row as u32,
                    self.aspect_ratio,
                    self.orientation,
                ),
            ),
            final(config).input_grid.grid_size == old(config).input_grid.grid_size,
            final(config).input_grid.input_source == old(config).input_grid.input_source,
            final(config).output_grid == old(config).output_grid,
            final(config).auto_detect == old(config).auto_detect,
    {
        config.set_cell_mapping(
            self.selected_input_cell as usize,
            self.selected_output_col as u32,
            self.selected_output_row as u32,
            self.aspect_ratio,
            self.orientation,
        );
    }

    /// "Remove Mapping": remove the mapping of the selected input cell.
    pub fn remove_mapping(&self, config: &mut VideoMatrixConfig) -> (removed: Option<GridCellMapping>)
        ensures
            final(config).input_grid.mappings@ == without_cell(
                old(config).input_grid.mappings@,
                self.selected_input_cell as usize,
            ),
            removed == (if first_mapping_of(
                old(config).input_grid.mappings@,
                self.selected_input_cell as usize,
            ) < old(config).input_grid.mappings@.len() {
                Some(
                    old(config).input_grid.mappings@[first_mapping_of(
                        old(config).input_grid.mappings@,
                        self.selected_input_cell as usize,
                    )],
                )
            } else {
                None
            }),
            final(config).input_grid.grid_size == old(config).input_grid.grid_size,
            final(config).output_grid == old(config).output_grid,
    {
        config.remove_cell_mapping(self.selected_input_cell as usize)
    }

    /// A quick two-screen preset: the tab switches to 2×1 grids and the
    /// preset configuration is returned.
    pub fn apply_preset(&mut self, screen0: AspectRatio, screen1: AspectRatio) -> (c: VideoMatrixConfig)
        ensures
            *final(self) == (MatrixTabState {
                input_grid_cols: 2,
                input_grid_rows: 1,
                output_grid_cols: 2,
                output_grid_rows: 1,
                ..*old(self)
            }),
            c.input_grid.mappings@ == seq![
                GridCellMapping {
                    input_cell: 0,
                    output_position: unit_cell(0, 0),
                    aspect_ratio: screen0,
                    orientation: Orientation::Normal,
                    display_id: Some(0u32),
                    enabled: true,
                },
                GridCellMapping {
                    input_cell: 1,
                    output_position: unit_cell(1, 0),
                    aspect_ratio: screen1,
                    orientation: Orientation::Normal,
                    display_id: Some(1u32),
                    enabled: true,
                },
            ],
            c.input_grid.grid_size == (GridSize { columns: 2, rows: 1 }),
            c.output_grid == (GridSize { columns: 2, rows: 1 }),
            !c.auto_detect,
    {
        let config = create_two_screen_config(screen0, screen1);
        self.input_grid_cols = 2;
        self.input_grid_rows = 1;
        self.output_grid_cols = 2;
        self.output_grid_rows = 1;
        config
    }

    /// "Show/Hide AprilTag Pattern": flips whether the pattern is shown and
    /// returns the new state (the pattern is generated when it becomes
    /// shown and withdrawn when it becomes hidden).
    pub fn toggle_pattern(&mut self) -> (showing: bool)
        ensures
            showing == !old(self).apriltag_showing_pattern,
            *final(self) == (MatrixTabState { apriltag_showing_pattern: showing, ..*old(self) }),
    {
        self.apriltag_showing_pattern = !self.apriltag_showing_pattern;
        self.apriltag_showing_pattern
    }

    /// The output grid that detected screens are placed on.
    pub fn detection_output_grid(&self) -> (g: GridSize)
        ensures
            g == (GridSize { columns: self.output_grid_cols as u32, rows: self.output_grid_rows as u32 }),
    {
        GridSize::new(self.output_grid_cols as u32, self.output_grid_rows as u32)
    }
}

} // verus!
