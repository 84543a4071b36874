//! # Video matrix layout
//!
//! The grid-based video matrix: an input texture is subdivided into a grid
//! of cells, and each mapped cell is shown at a cell of the output grid (one
//! physical display each). Output positions are whole grid cells.
//!
//! This module builds matrix configurations from AprilTag detections (a
//! screen with tag id `k` goes to output cell `(k % columns, k / columns)`),
//! offers the two-screen presets, and carries out the editing operations of
//! the control window (apply grid sizes, add/update, remove and clear cell
//! mappings) together with the text of the grid views.

use vstd::prelude::*;
use crate::text::{decimal, push_decimal};

verus! {

broadcast use vstd::string::group_string_axioms;

/// Tag placement strategy on screen.
#[derive(Debug, Clone, Copy, PartialEq, Eq, Structural)]
pub enum TagPlacement {
    /// Tag is centered on screen (default for test patterns)
    Centered,
    /// Tag is at top-left corner of screen
    TopLeft,
    /// Tag is at top-right corner of screen
    TopRight,
    /// Tag is at bottom-left corner of screen
    BottomLeft,
    /// Tag is at bottom-right corner of screen
    BottomRight,
}

impl Default for TagPlacement {
    fn default() -> (t: Self)
        ensures
            t == TagPlacement::Centered,
    {
        TagPlacement::Centered
    }
}

/// Physical aspect ratio of a display.
#[derive(Debug, Clone, Copy, PartialEq, Eq, Structural)]
pub enum AspectRatio {
    Ratio4_3,
    Ratio16_9,
    Ratio16_10,
    Ratio1_1,
    Ratio21_9,
}

/// Rotation of a display.
#[derive(Debug, Clone, Copy, PartialEq, Eq, Structural)]
pub enum Orientation {
    Normal,
    Rotated90,
    Rotated180,
    Rotated270,
}

/// The aspect ratio chosen by index in the control window's list
/// (4:3, 16:9, 16:10, 1:1, 21:9); any other index means 16:9.
pub open spec fn aspect_ratio_at(index: usize) -> AspectRatio {
    if index == 0 {
        AspectRatio::Ratio4_3
    } else if index == 1 {
        AspectRatio::Ratio16_9
    } else if index == 2 {
        AspectRatio::Ratio16_10
    } else if index == 3 {
        AspectRatio::Ratio1_1
    } else if index == 4 {
        AspectRatio::Ratio21_9
    } else {
        AspectRatio::Ratio16_9
    }
}

/// The orientation chosen by index in the control window's list
/// (0°, 90°, 180°, 270°); any other index means no rotation.
pub open spec fn orientation_at(index: usize) -> Orientation {
    if index == 0 {
        Orientation::Normal
    } else if index == 1 {
        Orientation::Rotated90
    } else if index == 2 {
        Orientation::Rotated180
    } else if index == 3 {
        Orientation::Rotated270
    } else {
        Orientation::Normal
    }
}

/// The aspect ratio at `index` of the control window's list.
pub fn aspect_ratio_from_index(index: usize) -> (a: AspectRatio)
    ensures
        a == aspect_ratio_at(index),
        index == 0 ==> a == AspectRatio::Ratio4_3,
        index == 1 ==> a == AspectRatio::Ratio16_9,
        index == 2 ==> a == AspectRatio::Ratio16_10,
        index == 3 ==> a == AspectRatio::Ratio1_1,
        index == 4 ==> a == AspectRatio::Ratio21_9,
        index > 4 ==> a == AspectRatio::Ratio16_9,
{
    if index == 0 {
        AspectRatio::Ratio4_3
    } else if index == 1 {
        AspectRatio::Ratio16_9
    } else if index == 2 {
        AspectRatio::Ratio16_10
    } else if index == 3 {
        AspectRatio::Ratio1_1
    } else if index == 4 {
        AspectRatio::Ratio21_9
    } else {
        AspectRatio::Ratio16_9
    }
}

/// The orientation at `index` of the control window's list.
pub fn orientation_from_index(index: usize) -> (o: Orientation)
    ensures
        o == orientation_at(index),
        index == 0 ==> o == Orientation::Normal,
        index == 1 ==> o == Orientation::Rotated90,
        index == 2 ==> o == Orientation::Rotated180,
        index == 3 ==> o == Orientation::Rotated270,
        index > 3 ==> o == Orientation::Normal,
{
    if index == 0 {
        Orientation::Normal
    } else if index == 1 {
        Orientation::Rotated90
    } else if index == 2 {
        Orientation::Rotated180
    } else if index == 3 {
        Orientation::Rotated270
    } else {
        Orientation::Normal
    }
}

/// Size of a grid in cells.
#[derive(Debug, Clone, Copy, PartialEq, Eq, Structural)]
pub struct GridSize {
    pub columns: u32,
    pub rows: u32,
}

impl GridSize {
    pub fn new(columns: u32, rows: u32) -> (g: Self)
        ensures
            g == (GridSize { columns, rows }),
    {
        GridSize { columns, rows }
    }

    /// Number of cells of the grid.
    pub fn total_cells(&self) -> (n: usize)
        requires
            self.columns * self.rows <= usize::MAX,
        ensures
            n == self.columns * self.rows,
    {
        assert(self.columns as usize * self.rows as usize == self.columns * self.rows);
        self.columns as usize * self.rows as usize
    }
}

/// A position on the output grid, in whole cells.
#[derive(Debug, Clone, Copy, PartialEq, Eq, Structural)]
pub struct GridPosition {
    pub col: u32,
    pub row: u32,
    pub width: u32,
    pub height: u32,
}

impl GridPosition {
    pub fn new(col: u32, row: u32, width: u32, height: u32) -> (p: Self)
        ensures
            p == (GridPosition { col, row, width, height }),
    {
        GridPosition { col, row, width, height }
    }
}

/// The one-cell output position at `(col, row)`.
pub open spec fn unit_cell(col: u32, row: u32) -> GridPosition {
    GridPosition { col, row, width: 1, height: 1 }
}

/// A mapping of one input cell to an output position.
#[derive(Debug, Clone, Copy, PartialEq, Eq, Structural)]
pub struct GridCellMapping {
    pub input_cell: usize,
    pub output_position: GridPosition,
    pub aspect_ratio: AspectRatio,
    pub orientation: Orientation,
    pub display_id: Option<u32>,
    pub enabled: bool,
}

impl GridCellMapping {
    /// An enabled mapping of `input_cell` to `output_position`, for a 16:9
    /// display without rotation and without a display id.
    pub fn new(input_cell: usize, output_position: GridPosition) -> (m: Self)
        ensures
            m == (GridCellMapping {
                input_cell,
                output_position,
                aspect_ratio: AspectRatio::Ratio16_9,
                orientation: Orientation::Normal,
                display_id: None,
                enabled: true,
            }),
    {
        GridCellMapping {
            input_cell,
            output_position,
            aspect_ratio: AspectRatio::Ratio16_9,
            orientation: Orientation::Normal,
            display_id: None,
            enabled: true,
        }
    }

    pub fn with_aspect_ratio(self, aspect_ratio: AspectRatio) -> (m: Self)
        ensures
            m == (GridCellMapping { aspect_ratio, ..self }),
    {
        GridCellMapping { aspect_ratio, ..self }
    }

    pub fn with_orientation(self, orientation: Orientation) -> (m: Self)
        ensures
            m == (GridCellMapping { orientation, ..self }),
    {
        GridCellMapping { orientation, ..self }
    }

    pub fn with_display_id(self, id: u32) -> (m: Self)
        ensures
            m == (GridCellMapping { display_id: Some(id), ..self }),
    {
        GridCellMapping { display_id: Some(id), ..self }
    }
}

/// The subdivision of the input texture and its cell mappings.
#[derive(Debug, Clone, PartialEq)]
pub struct InputGridConfig {
    pub grid_size: GridSize,
    /// Which input (1 or 2) is subdivided.
    pub input_source: u8,
    pub mappings: Vec<GridCellMapping>,
}

/// The index of the first mapping of `cell` in `m`, or `m.len()` when
/// there is none.
pub open spec fn first_mapping_of(m: Seq<GridCellMapping>, cell: usize) -> int
    decreases m.len(),
{
    if m.len() == 0 {
        0
    } else if m[0].input_cell == cell {
        0
    } else {
        1 + first_mapping_of(m.subrange(1, m.len() as int), cell)
    }
}

/// No input cell has more than one mapping.
pub open spec fn cells_unique(m: Seq<GridCellMapping>) -> bool {
    forall|i: int, j: int|
        0 <= i < j < m.len() ==> #[trigger] m[i].input_cell != #[trigger] m[j].input_cell
}

/// Whether `cell` has a mapping in `m`.
pub open spec fn has_cell(m: Seq<GridCellMapping>, cell: usize) -> bool {
    exists|i: int| 0 <= i < m.len() && #[trigger] m[i].input_cell == cell
}

proof fn lemma_first_mapping_of(m: Seq<GridCellMapping>, cell: usize)
    ensures
        0 <= first_mapping_of(m, cell) <= m.len(),
        forall|k: int| 0 <= k < first_mapping_of(m, cell) ==> #[trigger] m[k].input_cell != cell,
        first_mapping_of(m, cell) < m.len() ==> m[first_mapping_of(m, cell)].input_cell == cell,
    decreases m.len(),
{
    if m.len() > 0 && m[0].input_cell != cell {
        let t = m.subrange(1, m.len() as int);
        lemma_first_mapping_of(t, cell);
        assert forall|k: int| 0 <= k < first_mapping_of(m, cell) implies #[trigger] m[k].input_cell
            != cell by {
            if k > 0 {
                assert(m[k] == t[k - 1]);
            }
        }
    }
}

impl InputGridConfig {
    /// A grid of `grid_size` cells over input 1, without mappings.
    pub fn new(grid_size: GridSize) -> (g: Self)
        ensures
            g.grid_size == grid_size,
            g.input_source == 1,
            g.mappings@ == Seq::<GridCellMapping>::empty(),
    {
        InputGridConfig { grid_size, input_source: 1, mappings: Vec::new() }
    }

    pub fn with_input_source(self, input_source: u8) -> (g: Self)
        ensures
            g.grid_size == self.grid_size,
            g.input_source == input_source,
            g.mappings@ == self.mappings@,
    {
        InputGridConfig { input_source, ..self }
    }

    /// Number of cells of the input grid.
    pub fn total_cells(&self) -> (n: usize)
        requires
            self.grid_size.columns * self.grid_size.rows <= usize::MAX,
        ensures
            n == self.grid_size.columns * self.grid_size.rows,
    {
        self.grid_size.total_cells()
    }

    /// Append a mapping.
    pub fn add_mapping(&mut self, mapping: GridCellMapping)
        ensures
            final(self).grid_size == old(self).grid_size,
            final(self).input_source == old(self).input_source,
            final(self).mappings@ == old(self).mappings@.push(mapping),
    {
        self.mappings.push(mapping);
    }

    /// Remove the first mapping of `cell`, returning it.
    pub fn remove_mapping(&mut self, cell: usize) -> (removed: Option<GridCellMapping>)
        ensures
            final(self).grid_size == old(self).grid_size,
            final(self).input_source == old(self).input_source,
            ({
                let m = old(self).mappings@;
                let i = first_mapping_of(m, cell);
                if i < m.len() {
                    removed == Some(m[i]) && final(self).mappings@ == m.remove(i)
                } else {
                    removed is None && final(self).mappings@ == m
                }
            }),
    {
        proof {
            lemma_first_mapping_of(self.mappings@, cell);
        }
        let ghost m = self.mappings@;
        let mut i: usize = 0;
        while i < self.mappings.len()
            invariant
                self.mappings@ == m,
                m == old(self).mappings@,
                self.grid_size == old(self).grid_size,
                self.input_source == old(self).input_source,
                i <= m.len(),
                forall|k: int| 0 <= k < i ==> #[trigger] m[k].input_cell != cell,
            decreases m.len() - i,
        {
            if self.mappings[i].input_cell == cell {
                proof {
                    lemma_first_mapping_of(m, cell);
                    assert(m[i as int].input_cell == cell);
                    if first_mapping_of(m, cell) < i {
                        assert(m[first_mapping_of(m, cell)].input_cell == cell);
                    }
                    if first_mapping_of(m, cell) > i {
                        assert(m[i as int].input_cell == cell);
                    }
                    assert(first_mapping_of(m, cell) == i);
                }
                let r = self.mappings.remove(i);
                assert(r == m[i as int]);
                return Some(r);
            }
            i = i + 1;
        }
        proof {
            lemma_first_mapping_of(m, cell);
            if first_mapping_of(m, cell) < m.len() {
                assert(m[first_mapping_of(m, cell)].input_cell == cell);
            }
        }
        None
    }

    /// Remove every mapping.
    pub fn clear_mappings(&mut self)
        ensures
            final(self).grid_size == old(self).grid_size,
            final(self).input_source == old(self).input_source,
            final(self).mappings@ == Seq::<GridCellMapping>::empty(),
    {
        self.mappings.clear();
    }
}

/// A complete video matrix configuration.
#[derive(Debug, Clone, PartialEq)]
pub struct VideoMatrixConfig {
    pub input_grid: InputGridConfig,
    pub output_grid: GridSize,
    /// Whether the configuration came from AprilTag detection.
    pub auto_detect: bool,
}

impl VideoMatrixConfig {
    /// A configuration over input 1 with an input grid of
    /// `input_grid_size`, the same output grid, and no mappings.
    pub fn new(input_grid_size: GridSize) -> (c: Self)
        ensures
            c.input_grid.grid_size == input_grid_size,
            c.input_grid.input_source == 1,
            c.input_grid.mappings@ == Seq::<GridCellMapping>::empty(),
            c.output_grid == input_grid_size,
            !c.auto_detect,
    {
        VideoMatrixConfig {
            input_grid: InputGridConfig::new(input_grid_size),
            output_grid: input_grid_size,
            auto_detect: false,
        }
    }

    pub fn with_output_grid(self, output_grid: GridSize) -> (c: Self)
        ensures
            c.input_grid == self.input_grid,
            c.output_grid == output_grid,
            c.auto_detect == self.auto_detect,
    {
        VideoMatrixConfig { output_grid, ..self }
    }
}

/// What AprilTag detection found out about one screen that the matrix
/// layout uses: its tag id, aspect ratio and orientation.
#[derive(Debug, Clone, Copy, PartialEq, Eq, Structural)]
pub struct DetectedScreenInfo {
    pub screen_id: u32,
    pub aspect_ratio: AspectRatio,
    pub orientation: Orientation,
}

/// Why no matrix configuration could be built.
#[derive(Debug, Clone, Copy, PartialEq, Eq, Structural)]
pub enum MatrixConfigError {
    /// The detection found no screen.
    NoScreensDetected,
}

/// The output cell of the screen with tag id `id` on an output grid
/// `columns` wide: column `id % columns`, row `id / columns`.
pub open spec fn detected_position(id: u32, grid: GridSize) -> GridPosition {
    unit_cell((id % grid.columns) as u32, (id / grid.columns) as u32)
}

/// The mapping made for the screen at index `idx` of the detection.
pub open spec fn detected_mapping(idx: int, s: DetectedScreenInfo, grid: GridSize) -> GridCellMapping {
    GridCellMapping {
        input_cell: idx as usize,
        output_position: detected_position(s.screen_id, grid),
        aspect_ratio: s.aspect_ratio,
        orientation: s.orientation,
        display_id: Some(s.screen_id),
        enabled: true,
    }
}

/// The mappings made for the first `n` detected screens: one per screen
/// whose tag id names a cell of the output grid, in detection order;
/// screens with larger ids are skipped.
pub open spec fn detected_mappings(screens: Seq<DetectedScreenInfo>, grid: GridSize, n: int) -> Seq<
    GridCellMapping,
>
    decreases n,
{
    if n <= 0 {
        seq![]
    } else {
        let prev = detected_mappings(screens, grid, n - 1);
        if screens[n - 1].screen_id < grid.columns * grid.rows {
            prev.push(detected_mapping(n - 1, screens[n - 1], grid))
        } else {
            prev
        }
    }
}

/// The limits under which [`create_matrix_config`] does its arithmetic.
pub open spec fn matrix_grid_ok(screen_count: int, grid: GridSize) -> bool {
    screen_count > 0 ==> grid.columns > 0 && grid.columns * grid.rows <= u32::MAX
}

/// Create a video matrix configuration from detected screens.
///
/// Maps detected screens to output cells by screen id (AprilTag id):
/// `col = screen_id % columns`, `row = screen_id / columns`; screens whose
/// id lies outside the output grid are skipped. The input grid has one
/// column per detected screen and one row, and the mapping for the screen
/// at index `i` uses input cell `i`. Remaining output cells stay empty.
pub fn create_matrix_config(screens: &[DetectedScreenInfo], output_grid: GridSize) -> (r: Result<
    VideoMatrixConfig,
    MatrixConfigError,
>)
    requires
        matrix_grid_ok(screens@.len() as int, output_grid),
    ensures
        screens@.len() == 0 <==> r == Err::<VideoMatrixConfig, MatrixConfigError>(
            MatrixConfigError::NoScreensDetected,
        ),
        r matches Ok(c) ==> {
            &&& c.input_grid.grid_size == GridSize { columns: screens@.len() as u32, rows: 1 }
            &&& c.input_grid.input_source == 1
            &&& c.input_grid.mappings@ == detected_mappings(
                screens@,
                output_grid,
                screens@.len() as int,
            )
            &&& c.output_grid == output_grid
            &&& c.auto_detect
        },
{
    if screens.len() == 0 {
        return Err(MatrixConfigError::NoScreensDetected);
    }
    let input_grid_size = GridSize::new(screens.len() as u32, 1);
    let max_screen_id = output_grid.columns * output_grid.rows;
    let mut input_grid = InputGridConfig::new(input_grid_size);
    let mut idx: usize = 0;
    while idx < screens.len()
        invariant
            idx <= screens@.len(),
            output_grid.columns > 0,
            max_screen_id == output_grid.columns * output_grid.rows,
            input_grid.grid_size == input_grid_size,
            input_grid.input_source == 1,
            input_grid.mappings@ == detected_mappings(screens@, output_grid, idx as int),
        decreases screens@.len() - idx,
    {
        let screen = screens[idx];
        let screen_id = screen.screen_id;
        let output_col = screen_id % output_grid.columns;
        let output_row = screen_id / output_grid.columns;
        if screen_id < max_screen_id {
            let output_position = GridPosition::new(output_col, output_row, 1, 1);
            let mapping = GridCellMapping::new(idx, output_position).with_aspect_ratio(
                screen.aspect_ratio,
            ).with_orientation(screen.orientation).with_display_id(screen_id);
            input_grid.add_mapping(mapping);
        }
        idx = idx + 1;
    }
    Ok(VideoMatrixConfig { input_grid, output_grid, auto_detect: true })
}

/// Every mapping made from a detection uses its own input cell (cells are
/// strictly increasing), is enabled, names the one output cell inside the
/// grid at column `id % columns` and row `id / columns` of its screen's tag
/// id, and carries that tag id as display id and the aspect ratio and
/// orientation that the detection found for that screen.
pub proof fn law_detected_mappings_well_placed(
    screens: Seq<DetectedScreenInfo>,
    grid: GridSize,
    n: int,
)
    requires
        0 <= n <= screens.len() <= usize::MAX,
        n > 0 ==> grid.columns > 0,
    ensures
        cells_unique(detected_mappings(screens, grid, n)),
        forall|i: int, j: int|
            0 <= i < j < detected_mappings(screens, grid, n).len() ==> #[trigger] detected_mappings(
                screens,
                grid,
                n,
            )[i].input_cell < #[trigger] detected_mappings(screens, grid, n)[j].input_cell,
        forall|i: int|
            0 <= i < detected_mappings(screens, grid, n).len() ==> {
                let m = #[trigger] detected_mappings(screens, grid, n)[i];
                &&& m.input_cell < n
                &&& m.output_position.col < grid.columns
                &&& m.output_position.row < grid.rows
                &&& m.display_id == Some(screens[m.input_cell as int].screen_id)
                &&& m.output_position == detected_position(screens[m.input_cell as int].screen_id, grid)
                &&& m.output_position.col == screens[m.input_cell as int].screen_id % grid.columns
                &&& m.output_position.row == screens[m.input_cell as int].screen_id / grid.columns
                &&& m.output_position.width == 1
                &&& m.output_position.height == 1
                &&& m.aspect_ratio == screens[m.input_cell as int].aspect_ratio
                &&& m.orientation == screens[m.input_cell as int].orientation
                &&& m.enabled
            },
    decreases n,
{
    if n > 0 {
        law_detected_mappings_well_placed(screens, grid, n - 1);
        let prev = detected_mappings(screens, grid, n - 1);
        let cur = detected_mappings(screens, grid, n);
        let s = screens[n - 1];
        if s.screen_id < grid.columns * grid.rows {
            let id = s.screen_id as int;
            let c = grid.columns as int;
            assert(id / c < grid.rows) by (nonlinear_arith)
                requires
                    0 <= id < c * grid.rows,
                    c > 0,
            ;
            assert(id % c < c) by (nonlinear_arith)
                requires
                    c > 0,
                    0 <= id,
            ;
            assert(cur == prev.push(detected_mapping(n - 1, s, grid)));
            assert forall|i: int| 0 <= i < prev.len() implies #[trigger] cur[i] == prev[i] by {}
            assert forall|i: int| 0 <= i < prev.len() implies #[trigger] prev[i].input_cell < n - 1 by {
            }
            assert forall|i: int, j: int| 0 <= i < j < cur.len() implies #[trigger] cur[i].input_cell
                < #[trigger] cur[j].input_cell by {
                if j < prev.len() {
                    assert(prev[i].input_cell < prev[j].input_cell);
                } else {
                    assert(prev[i].input_cell < n - 1);
                }
            }
            assert forall|i: int| 0 <= i < cur.len() implies {
                let m = #[trigger] cur[i];
                &&& m.input_cell < n
                &&& m.output_position.col < grid.columns
                &&& m.output_position.row < grid.rows
                &&& m.display_id == Some(screens[m.input_cell as int].screen_id)
                &&& m.output_position == detected_position(screens[m.input_cell as int].screen_id, grid)
                &&& m.output_position.col == screens[m.input_cell as int].screen_id % grid.columns
                &&& m.output_position.row == screens[m.input_cell as int].screen_id / grid.columns
                &&& m.output_position.width == 1
                &&& m.output_position.height == 1
                &&& m.aspect_ratio == screens[m.input_cell as int].aspect_ratio
                &&& m.orientation == screens[m.input_cell as int].orientation
                &&& m.enabled
            } by {
                if i < prev.len() {
                    assert(cur[i] == prev[i]);
                }
            }
        } else {
            assert(cur == prev);
        }
    }
}

/// Every detected screen whose tag id names a cell of the output grid gets
/// a mapping of its own input cell, and no other screen does.
pub proof fn law_detected_screens_all_mapped(screens: Seq<DetectedScreenInfo>, grid: GridSize, n: int)
    requires
        0 <= n <= screens.len() <= usize::MAX,
        n > 0 ==> grid.columns > 0,
    ensures
        forall|i: int|
            0 <= i < n ==> (has_cell(detected_mappings(screens, grid, n), i as usize) <==> (
            #[trigger] screens[i]).screen_id < grid.columns * grid.rows),
    decreases n,
{
    if n > 0 {
        law_detected_screens_all_mapped(screens, grid, n - 1);
        law_detected_mappings_well_placed(screens, grid, n - 1);
        let prev = detected_mappings(screens, grid, n - 1);
        let cur = detected_mappings(screens, grid, n);
        assert forall|i: int| 0 <= i < n implies (has_cell(cur, i as usize) <==> (
        #[trigger] screens[i]).screen_id < grid.columns * grid.rows) by {
            if screens[n - 1].screen_id < grid.columns * grid.rows {
                assert(cur == prev.push(detected_mapping(n - 1, screens[n - 1], grid)));
                if i < n - 1 {
                    if has_cell(cur, i as usize) {
                        let k = choose|k: int| 0 <= k < cur.len() && #[trigger] cur[k].input_cell == i as usize;
                        if k < prev.len() {
                            assert(cur[k] == prev[k]);
                        }
                    }
                    if has_cell(prev, i as usize) {
                        let k = choose|k: int| 0 <= k < prev.len() && #[trigger] prev[k].input_cell == i as usize;
                        assert(cur[k] == prev[k]);
                    }
                } else {
                    assert(cur[prev.len() as int].input_cell == i as usize);
                }
            } else {
                assert(cur == prev);
                if i == n - 1 && has_cell(cur, i as usize) {
                    let k = choose|k: int| 0 <= k < cur.len() && #[trigger] cur[k].input_cell == i as usize;
                    assert(prev[k].input_cell < n - 1);
                }
            }
        }
    }
}

/// Screens with different tag ids are shown on different output cells.
pub proof fn law_distinct_ids_distinct_cells(a: u32, b: u32, grid: GridSize)
    requires
        grid.columns > 0,
        a != b,
    ensures
        detected_position(a, grid) != detected_position(b, grid),
{
    let c = grid.columns as int;
    vstd::arithmetic::div_mod::lemma_fundamental_div_mod(a as int, c);
    vstd::arithmetic::div_mod::lemma_fundamental_div_mod(b as int, c);
    if detected_position(a, grid) == detected_position(b, grid) {
        assert(a as int % c == b as int % c);
        assert(a as int / c == b as int / c);
        assert(a as int == c * (a as int / c) + a as int % c);
        assert(b as int == c * (b as int / c) + b as int % c);
    }
}

/// A simple two-screen side-by-side configuration: input cell 0 on output
/// cell (0, 0) as display 0 and input cell 1 on output cell (1, 0) as
/// display 1, on 2×1 grids.
pub fn create_two_screen_config(screen0_aspect: AspectRatio, screen1_aspect: AspectRatio) -> (c:
    VideoMatrixConfig)
    ensures
        c.input_grid.grid_size == (GridSize { columns: 2, rows: 1 }),
        c.input_grid.input_source == 1,
        c.input_grid.mappings@ == seq![
            GridCellMapping {
                input_cell: 0,
                output_position: unit_cell(0, 0),
                aspect_ratio: screen0_aspect,
                orientation: Orientation::Normal,
                display_id: Some(0u32),
                enabled: true,
            },
            GridCellMapping {
                input_cell: 1,
                output_position: unit_cell(1, 0),
                aspect_ratio: screen1_aspect,
                orientation: Orientation::Normal,
                display_id: Some(1u32),
                enabled: true,
            },
        ],
        c.output_grid == (GridSize { columns: 2, rows: 1 }),
        !c.auto_detect,
{
    let grid_size = GridSize::new(2, 1);
    let mut input_grid = InputGridConfig::new(grid_size);
    let mapping_0 = GridCellMapping::new(0, GridPosition::new(0, 0, 1, 1)).with_aspect_ratio(
        screen0_aspect,
    ).with_display_id(0);
    let mapping_1 = GridCellMapping::new(1, GridPosition::new(1, 0, 1, 1)).with_aspect_ratio(
        screen1_aspect,
    ).with_display_id(1);
    input_grid.add_mapping(mapping_0);
    input_grid.add_mapping(mapping_1);
    VideoMatrixConfig { input_grid, output_grid: GridSize::new(2, 1), auto_detect: false }
}

/// The mappings of `m` whose input cell lies below `total`, in order.
pub open spec fn mappings_below(m: Seq<GridCellMapping>, total: int) -> Seq<GridCellMapping>
    decreases m.len(),
{
    if m.len() == 0 {
        seq![]
    } else {
        let prev = mappings_below(m.drop_last(), total);
        if m.last().input_cell < total {
            prev.push(m.last())
        } else {
            prev
        }
    }
}

/// Whether some enabled mapping of `m` shows at output cell `(col, row)`.
pub open spec fn cell_mapped(m: Seq<GridCellMapping>, col: u32, row: u32) -> bool {
    exists|i: int|
        0 <= i < m.len() && #[trigger] m[i].enabled && m[i].output_position.col == col
            && m[i].output_position.row == row
}

/// `m` with the first mapping of `cell` removed, if there is one.
pub open spec fn without_cell(m: Seq<GridCellMapping>, cell: usize) -> Seq<GridCellMapping> {
    let i = first_mapping_of(m, cell);
    if i < m.len() {
        m.remove(i)
    } else {
        m
    }
}

/// The mapping that the control window adds for `input_cell`.
pub open spec fn edited_mapping(
    input_cell: usize,
    col: u32,
    row: u32,
    aspect_index: usize,
    orientation_index: usize,
) -> GridCellMapping {
    GridCellMapping {
        input_cell,
        output_position: unit_cell(col, row),
        aspect_ratio: aspect_ratio_at(aspect_index),
        orientation: orientation_at(orientation_index),
        display_id: None,
        enabled: true,
    }
}

impl VideoMatrixConfig {
    /// Apply grid sizes chosen in the control window: a new configuration
    /// with an input grid of `input_cols`×`input_rows` over input
    /// `input_source`, an output grid of `output_cols`×`output_rows`, and the
    /// existing mappings whose input cell still lies inside the new input
    /// grid.
    pub fn apply_grid_config(
        &self,
        input_cols: u32,
        input_rows: u32,
        output_cols: u32,
        output_rows: u32,
        input_source: u8,
    ) -> (c: VideoMatrixConfig)
        requires
            input_cols * input_rows <= usize::MAX,
        ensures
            c.input_grid.grid_size == (GridSize { columns: input_cols, rows: input_rows }),
            c.input_grid.input_source == input_source,
            c.input_grid.mappings@ == mappings_below(
                self.input_grid.mappings@,
                input_cols * input_rows,
            ),
            c.input_grid.mappings@ == self.input_grid.mappings@.filter(
                (|x: GridCellMapping| x.input_cell < input_cols * input_rows),
            ),
            c.output_grid == (GridSize { columns: output_cols, rows: output_rows }),
            !c.auto_detect,
    {
        let input_grid_size = GridSize::new(input_cols, input_rows);
        let mut input_grid = InputGridConfig::new(input_grid_size).with_input_source(input_source);
        let total = input_grid.total_cells();
        let ghost m = self.input_grid.mappings@;
        let mut kept: Vec<GridCellMapping> = Vec::new();
        let mut i: usize = 0;
        while i < self.input_grid.mappings.len()
            invariant
                m == self.input_grid.mappings@,
                i <= m.len(),
                total == input_cols * input_rows,
                kept@ == mappings_below(m.subrange(0, i as int), total as int),
            decreases m.len() - i,
        {
            let mapping = self.input_grid.mappings[i];
            assert(m.subrange(0, i + 1).drop_last() =~= m.subrange(0, i as int));
            if mapping.input_cell < total {
                kept.push(mapping);
            }
            i = i + 1;
        }
        assert(m.subrange(0, m.len() as int) =~= m);
        proof {
            law_apply_grid_filters_mappings(m, total as int);
        }
        input_grid.mappings = kept;
        let mut config = VideoMatrixConfig::new(input_grid_size).with_output_grid(
            GridSize::new(output_cols, output_rows),
        );
        config.input_grid = input_grid;
        config
    }

    /// Add or update the mapping of `input_cell`: any mapping of that cell
    /// is removed, then an enabled one-cell mapping to `(output_col,
    /// output_row)` is appended with the aspect ratio and orientation at the
    /// given indices of the control window's lists.
    pub fn set_cell_mapping(
        &mut self,
        input_cell: usize,
        output_col: u32,
        output_row: u32,
        aspect_index: usize,
        orientation_index: usize,
    )
        ensures
            final(self).input_grid.grid_size == old(self).input_grid.grid_size,
            final(self).input_grid.input_source == old(self).input_grid.input_source,
            final(self).input_grid.mappings@ == without_cell(
                old(self).input_grid.mappings@,
                input_cell,
            ).push(edited_mapping(input_cell, output_col, output_row, aspect_index, orientation_index)),
            final(self).output_grid == old(self).output_grid,
            final(self).auto_detect == old(self).auto_detect,
    {
        let aspect_ratio = aspect_ratio_from_index(aspect_index);
        let orientation = orientation_from_index(orientation_index);
        let _ = self.input_grid.remove_mapping(input_cell);
        let mapping = GridCellMapping::new(
            input_cell,
            GridPosition::new(output_col, output_row, 1, 1),
        ).with_aspect_ratio(aspect_ratio).with_orientation(orientation);
        self.input_grid.add_mapping(mapping);
    }

    /// Remove the mapping of `input_cell`, returning it.
    pub fn remove_cell_mapping(&mut self, input_cell: usize) -> (removed: Option<GridCellMapping>)
        ensures
            final(self).input_grid.grid_size == old(self).input_grid.grid_size,
            final(self).input_grid.input_source == old(self).input_grid.input_source,
            final(self).input_grid.mappings@ == without_cell(
                old(self).input_grid.mappings@,
                input_cell,
            ),
            removed == (if first_mapping_of(old(self).input_grid.mappings@, input_cell)
                < old(self).input_grid.mappings@.len() {
                Some(
                    old(self).input_grid.mappings@[first_mapping_of(
                        old(self).input_grid.mappings@,
                        input_cell,
                    )],
                )
            } else {
                None
            }),
            final(self).output_grid == old(self).output_grid,
            final(self).auto_detect == old(self).auto_detect,
    {
        self.input_grid.remove_mapping(input_cell)
    }

    /// Remove every mapping; the grid sizes stay.
    pub fn clear_cell_mappings(&mut self)
        ensures
            final(self).input_grid.grid_size == old(self).input_grid.grid_size,
            final(self).input_grid.input_source == old(self).input_grid.input_source,
            final(self).input_grid.mappings@ == Seq::<GridCellMapping>::empty(),
            final(self).output_grid == old(self).output_grid,
            final(self).auto_detect == old(self).auto_detect,
    {
        self.input_grid.clear_mappings();
    }

    /// Whether an enabled mapping shows at output cell `(col, row)`.
    pub fn output_cell_mapped(&self, col: u32, row: u32) -> (b: bool)
        ensures
            b == cell_mapped(self.input_grid.mappings@, col, row),
    {
        let ghost m = self.input_grid.mappings@;
        let mut i: usize = 0;
        while i < self.input_grid.mappings.len()
            invariant
                m == self.input_grid.mappings@,
                i <= m.len(),
                forall|k: int|
                    0 <= k < i ==> !(#[trigger] m[k].enabled && m[k].output_position.col == col
                        && m[k].output_position.row == row),
            decreases m.len() - i,
        {
            let mapping = self.input_grid.mappings[i];
            if mapping.enabled && mapping.output_position.col == col
                && mapping.output_position.row == row {
                assert(m[i as int].enabled);
                return true;
            }
            i = i + 1;
        }
        false
    }
}

proof fn lemma_remove_unique(m: Seq<GridCellMapping>, cell: usize)
    requires
        cells_unique(m),
    ensures
        cells_unique(without_cell(m, cell)),
        !has_cell(without_cell(m, cell), cell),
        forall|c: usize| c != cell ==> (has_cell(without_cell(m, cell), c) <==> has_cell(m, c)),
{
    lemma_first_mapping_of(m, cell);
    let i = first_mapping_of(m, cell);
    let r = without_cell(m, cell);
    if i < m.len() {
        assert forall|a: int, b: int| 0 <= a < b < r.len() implies #[trigger] r[a].input_cell
            != #[trigger] r[b].input_cell by {
            let a2 = if a < i { a } else { a + 1 };
            let b2 = if b < i { b } else { b + 1 };
            assert(r[a] == m[a2]);
            assert(r[b] == m[b2]);
        }
        if has_cell(r, cell) {
            let k = choose|k: int| 0 <= k < r.len() && #[trigger] r[k].input_cell == cell;
            let k2 = if k < i { k } else { k + 1 };
            assert(r[k] == m[k2]);
            if k2 < i {
                assert(m[k2].input_cell != cell);
            } else {
                assert(m[i].input_cell == m[k2].input_cell);
            }
        }
        assert forall|c: usize| c != cell implies (has_cell(r, c) <==> has_cell(m, c)) by {
            if has_cell(m, c) {
                let k = choose|k: int| 0 <= k < m.len() && #[trigger] m[k].input_cell == c;
                assert(k != i);
                let k2 = if k < i { k } else { k - 1 };
                assert(r[k2] == m[k]);
            }
            if has_cell(r, c) {
                let k = choose|k: int| 0 <= k < r.len() && #[trigger] r[k].input_cell == c;
                let k2 = if k < i { k } else { k + 1 };
                assert(r[k] == m[k2]);
            }
        }
    } else {
        if has_cell(m, cell) {
            let k = choose|k: int| 0 <= k < m.len() && #[trigger] m[k].input_cell == cell;
            assert(m[k].input_cell != cell);
        }
    }
}

/// The Matrix tab's aspect-ratio list is 4:3, 16:9, 16:10, 1:1, 21:9 (index
/// 1, the tab's default, is 16:9; an index past the list means 16:9) and its
/// orientation list is 0°, 90°, 180°, 270° (an index past it means no
/// rotation). A mapping added from the tab is enabled, maps its input cell
/// to the one output cell chosen, has no display id, and carries the ratio
/// and rotation picked in those lists.
pub proof fn law_matrix_tab_choices(
    cell: usize,
    col: u32,
    row: u32,
    aspect_index: usize,
    orientation_index: usize,
)
    ensures
        ({
            let e = edited_mapping(cell, col, row, aspect_index, orientation_index);
            &&& e.input_cell == cell
            &&& e.output_position == (GridPosition { col, row, width: 1, height: 1 })
            &&& e.display_id is None
            &&& e.enabled
            &&& aspect_index == 0 ==> e.aspect_ratio == AspectRatio::Ratio4_3
            &&& aspect_index == 1 ==> e.aspect_ratio == AspectRatio::Ratio16_9
            &&& aspect_index == 2 ==> e.aspect_ratio == AspectRatio::Ratio16_10
            &&& aspect_index == 3 ==> e.aspect_ratio == AspectRatio::Ratio1_1
            &&& aspect_index == 4 ==> e.aspect_ratio == AspectRatio::Ratio21_9
            &&& aspect_index > 4 ==> e.aspect_ratio == AspectRatio::Ratio16_9
            &&& orientation_index == 0 ==> e.orientation == Orientation::Normal
            &&& orientation_index == 1 ==> e.orientation == Orientation::Rotated90
            &&& orientation_index == 2 ==> e.orientation == Orientation::Rotated180
            &&& orientation_index == 3 ==> e.orientation == Orientation::Rotated270
            &&& orientation_index > 3 ==> e.orientation == Orientation::Normal
        }),
{
}

/// Adding or updating the mapping of a cell keeps every input cell mapped
/// at most once, leaves exactly one mapping of that cell (the new one, at
/// the end) and keeps the mappings of all other cells.
pub proof fn law_set_cell_mapping_keeps_cells_unique(
    m: Seq<GridCellMapping>,
    cell: usize,
    col: u32,
    row: u32,
    aspect_index: usize,
    orientation_index: usize,
)
    requires
        cells_unique(m),
    ensures
        ({
            let n = without_cell(m, cell).push(
                edited_mapping(cell, col, row, aspect_index, orientation_index),
            );
            &&& cells_unique(n)
            &&& n.last() == edited_mapping(cell, col, row, aspect_index, orientation_index)
            &&& forall|k: int| 0 <= k < n.len() - 1 ==> #[trigger] n[k].input_cell != cell
            &&& forall|c: usize| c != cell ==> (has_cell(n, c) <==> has_cell(m, c))
        }),
{
    lemma_remove_unique(m, cell);
    let r = without_cell(m, cell);
    let x = edited_mapping(cell, col, row, aspect_index, orientation_index);
    let n = r.push(x);
    assert forall|k: int| 0 <= k < n.len() - 1 implies #[trigger] n[k].input_cell != cell by {
        assert(n[k] == r[k]);
    }
    assert forall|a: int, b: int| 0 <= a < b < n.len() implies #[trigger] n[a].input_cell
        != #[trigger] n[b].input_cell by {
        assert(n[a] == r[a]);
        if b < r.len() {
            assert(n[b] == r[b]);
        }
    }
    assert forall|c: usize| c != cell implies (has_cell(n, c) <==> has_cell(r, c)) by {
        if has_cell(r, c) {
            let k = choose|k: int| 0 <= k < r.len() && #[trigger] r[k].input_cell == c;
            assert(n[k] == r[k]);
        }
        if has_cell(n, c) {
            let k = choose|k: int| 0 <= k < n.len() && #[trigger] n[k].input_cell == c;
            assert(k < r.len());
            assert(n[k] == r[k]);
        }
    }
}

/// Removing the mapping of a cell keeps input cells unique, leaves that
/// cell unmapped and keeps the mappings of all other cells.
pub proof fn law_remove_cell_mapping(m: Seq<GridCellMapping>, cell: usize)
    requires
        cells_unique(m),
    ensures
        cells_unique(without_cell(m, cell)),
        !has_cell(without_cell(m, cell), cell),
        forall|c: usize| c != cell ==> (has_cell(without_cell(m, cell), c) <==> has_cell(m, c)),
{
    lemma_remove_unique(m, cell);
}

/// Applying new grid sizes keeps exactly the mappings whose input cell fits
/// the new input grid, in their order, so input cells stay unique.
pub proof fn law_apply_grid_keeps_fitting_mappings(m: Seq<GridCellMapping>, total: int)
    ensures
        forall|k: int|
            0 <= k < mappings_below(m, total).len() ==> #[trigger] mappings_below(
                m,
                total,
            )[k].input_cell < total,
        forall|c: usize|
            (has_cell(mappings_below(m, total), c) <==> (has_cell(m, c) && c < total)),
        cells_unique(m) ==> cells_unique(mappings_below(m, total)),
    decreases m.len(),
{
    if m.len() > 0 {
        let t = m.drop_last();
        law_apply_grid_keeps_fitting_mappings(t, total);
        let p = mappings_below(t, total);
        let r = mappings_below(m, total);
        assert forall|c: usize| (has_cell(m, c) <==> (has_cell(t, c) || m.last().input_cell == c)) by {
            if has_cell(m, c) {
                let k = choose|k: int| 0 <= k < m.len() && #[trigger] m[k].input_cell == c;
                if k < t.len() {
                    assert(t[k] == m[k]);
                }
            }
            if has_cell(t, c) {
                let k = choose|k: int| 0 <= k < t.len() && #[trigger] t[k].input_cell == c;
                assert(t[k] == m[k]);
            }
        }
        if m.last().input_cell < total {
            assert(r == p.push(m.last()));
            assert forall|c: usize| (has_cell(r, c) <==> (has_cell(p, c) || m.last().input_cell == c)) by {
                if has_cell(r, c) {
                    let k = choose|k: int| 0 <= k < r.len() && #[trigger] r[k].input_cell == c;
                    if k < p.len() {
                        assert(r[k] == p[k]);
                    }
                }
                if has_cell(p, c) {
                    let k = choose|k: int| 0 <= k < p.len() && #[trigger] p[k].input_cell == c;
                    assert(r[k] == p[k]);
                }
                if m.last().input_cell == c {
                    assert(r[p.len() as int] == m.last());
                }
            }
            assert forall|k: int| 0 <= k < r.len() implies #[trigger] r[k].input_cell < total by {
                if k < p.len() {
                    assert(r[k] == p[k]);
                }
            }
            if cells_unique(m) {
                assert(cells_unique(t)) by {
                    assert forall|a: int, b: int| 0 <= a < b < t.len() implies #[trigger] t[a].input_cell
                        != #[trigger] t[b].input_cell by {
                        assert(t[a] == m[a]);
                        assert(t[b] == m[b]);
                    }
                }
                assert(!has_cell(t, m.last().input_cell)) by {
                    if has_cell(t, m.last().input_cell) {
                        let k = choose|k: int| 0 <= k < t.len() && #[trigger] t[k].input_cell == m.last().input_cell;
                        assert(t[k] == m[k]);
                        assert(m[k].input_cell != m[m.len() - 1].input_cell);
                    }
                }
                assert forall|a: int, b: int| 0 <= a < b < r.len() implies #[trigger] r[a].input_cell
                    != #[trigger] r[b].input_cell by {
                    assert(r[a] == p[a]);
                    if b < p.len() {
                        assert(r[b] == p[b]);
                    } else {
                        assert(has_cell(p, p[a].input_cell));
                    }
                }
            }
        } else {
            assert(r == p);
            if cells_unique(m) {
                assert(cells_unique(t)) by {
                    assert forall|a: int, b: int| 0 <= a < b < t.len() implies #[trigger] t[a].input_cell
                        != #[trigger] t[b].input_cell by {
                        assert(t[a] == m[a]);
                        assert(t[b] == m[b]);
                    }
                }
            }
        }
    }
}

/// Applying new grid sizes keeps the old mappings whose input cell lies
/// below the new cell count, unchanged and in their order, and drops the
/// others: the result is the old sequence filtered by that test.
pub proof fn law_apply_grid_filters_mappings(m: Seq<GridCellMapping>, total: int)
    ensures
        mappings_below(m, total) == m.filter(|x: GridCellMapping| x.input_cell < total),
    decreases m.len(),
{
    reveal_with_fuel(Seq::<GridCellMapping>::filter, 1);
    if m.len() > 0 {
        law_apply_grid_filters_mappings(m.drop_last(), total);
    }
}

/// Label of input cell `idx` in the input grid view: `[X] ` for the
/// selected cell, `[idx] ` otherwise.
pub open spec fn input_cell_label(idx: nat, selected: usize) -> Seq<char> {
    if idx == selected {
        "[X] "@
    } else {
        "["@ + decimal(idx) + "] "@
    }
}

/// Text of the first `n` cells of row `row` of the input grid view.
pub open spec fn input_row_text(row: nat, cols: nat, selected: usize, n: nat) -> Seq<char>
    decreases n,
{
    if n == 0 {
        seq![]
    } else {
        input_row_text(row, cols, selected, (n - 1) as nat) + input_cell_label(
            row * cols + (n - 1) as nat,
            selected,
        )
    }
}

/// Label of output cell `(col, row)` in the output grid view: `[#] ` selected
/// and mapped, `[.] ` selected, `[M] ` mapped, `[ ] ` otherwise.
pub open spec fn output_cell_label(selected: bool, mapped: bool) -> Seq<char> {
    if selected {
        if mapped {
            "[#] "@
        } else {
            "[.] "@
        }
    } else if mapped {
        "[M] "@
    } else {
        "[ ] "@
    }
}

/// Text of the first `n` cells of row `row` of the output grid view.
pub open spec fn output_row_text(
    m: Seq<GridCellMapping>,
    row: u32,
    sel_col: u32,
    sel_row: u32,
    n: nat,
) -> Seq<char>
    decreases n,
{
    if n == 0 {
        seq![]
    } else {
        let col = (n - 1) as u32;
        output_row_text(m, row, sel_col, sel_row, (n - 1) as nat) + output_cell_label(
            col == sel_col && row == sel_row,
            cell_mapped(m, col, row),
        )
    }
}

/// One row of the input grid view: each cell shows its index, the selected
/// cell shows `X`.
pub fn input_grid_row_text(row: u32, cols: u32, selected: usize) -> (t: String)
    requires
        row * cols + cols <= u32::MAX,
    ensures
        t@ == input_row_text(row as nat, cols as nat, selected, cols as nat),
{
    let mut t = String::new();
    let mut col: u32 = 0;
    while col < cols
        invariant
            col <= cols,
            row * cols + cols <= u32::MAX,
            t@ == input_row_text(row as nat, cols as nat, selected, col as nat),
        decreases cols - col,
    {
        assert(row * cols + col <= row * cols + cols);
        let cell_idx = (row * cols + col) as usize;
        proof {
            reveal_strlit("[X] ");
            reveal_strlit("[");
            reveal_strlit("] ");
        }
        if cell_idx == selected {
            t.append("[X] ");
        } else {
            t.append("[");
            push_decimal(&mut t, cell_idx);
            t.append("] ");
        }
        assert(input_row_text(row as nat, cols as nat, selected, (col + 1) as nat)
            == input_row_text(row as nat, cols as nat, selected, col as nat) + input_cell_label(
            (row * cols + col) as nat,
            selected,
        ));
        col = col + 1;
    }
    t
}

impl VideoMatrixConfig {
    /// One row of the output grid view of this configuration, with the
    /// selected cell at `(sel_col, sel_row)`.
    pub fn output_grid_row_text(&self, row: u32, cols: u32, sel_col: u32, sel_row: u32) -> (t:
        String)
        ensures
            t@ == output_row_text(self.input_grid.mappings@, row, sel_col, sel_row, cols as nat),
    {
        let mut t = String::new();
        let mut col: u32 = 0;
        while col < cols
            invariant
                col <= cols,
                t@ == output_row_text(self.input_grid.mappings@, row, sel_col, sel_row, col as nat),
            decreases cols - col,
        {
            let mapped = self.output_cell_mapped(col, row);
            proof {
                reveal_strlit("[#] ");
                reveal_strlit("[.] ");
                reveal_strlit("[M] ");
                reveal_strlit("[ ] ");
            }
            if col == sel_col && row == sel_row {
                if mapped {
                    t.append("[#] ");
                } else {
                    t.append("[.] ");
                }
            } else if mapped {
                t.append("[M] ");
            } else {
                t.append("[ ] ");
            }
            assert(((col + 1) as nat - 1) as u32 == col);
            col = col + 1;
        }
        t
    }
}

/// Screen `a` comes before screen `b` when ordering by tag id, the earlier
/// detection first among equal ids.
pub open spec fn id_before(ids: Seq<u32>, a: usize, b: usize) -> bool {
    ids[a as int] < ids[b as int] || (ids[a as int] == ids[b as int] && a < b)
}

/// `order` lists each index below `n` exactly once.
pub open spec fn is_index_permutation(order: Seq<usize>, n: nat) -> bool {
    &&& order.len() == n
    &&& forall|i: int| 0 <= i < order.len() ==> #[trigger] order[i] < n
    &&& forall|i: int, j: int| 0 <= i < j < order.len() ==> #[trigger] order[i] != #[trigger] order[j]
}

/// `order` lists screens by tag id, stably.
pub open spec fn ordered_by_id(order: Seq<usize>, ids: Seq<u32>) -> bool {
    forall|i: int, j: int| 0 <= i < j < order.len() ==> id_before(ids, #[trigger] order[i], #[trigger] order[j])
}

/// The order in which detected screens are listed: sorted by tag id, and
/// among equal ids in detection order (a stable sort by id). Returns the
/// detection indices in that order.
pub fn screen_order(ids: &[u32]) -> (order: Vec<usize>)
    ensures
        is_index_permutation(order@, ids@.len()),
        ordered_by_id(order@, ids@),
{
    let mut order: Vec<usize> = Vec::new();
    let n = ids.len();
    let mut k: usize = 0;
    while k < n
        invariant
            n == ids@.len(),
            k <= n,
            is_index_permutation(order@, k as nat),
            ordered_by_id(order@, ids@),
        decreases n - k,
    {
        let key = ids[k];
        let mut pos: usize = 0;
        while pos < order.len() && ids[order[pos]] <= key
            invariant
                n == ids@.len(),
                k < n,
                pos <= order@.len(),
                is_index_permutation(order@, k as nat),
                ordered_by_id(order@, ids@),
                key == ids@[k as int],
                forall|i: int| 0 <= i < pos ==> ids[#[trigger] order@[i] as int] <= key,
            decreases order@.len() - pos,
        {
            pos = pos + 1;
        }
        let ghost old_order = order@;
        proof {
            assert forall|i: int| pos <= i < old_order.len() implies ids[#[trigger] old_order[i] as int]
                > key by {
                assert(ids[old_order[pos as int] as int] > key);
                if i > pos {
                    assert(id_before(ids@, old_order[pos as int], old_order[i]));
                }
            }
        }
        order.insert(pos, k);
        proof {
            let o = order@;
            assert forall|i: int| 0 <= i < o.len() implies #[trigger] o[i] < k + 1 by {
                if i < pos {
                    assert(o[i] == old_order[i]);
                } else if i > pos {
                    assert(o[i] == old_order[i - 1]);
                }
            }
            assert forall|i: int, j: int| 0 <= i < j < o.len() implies #[trigger] o[i] != #[trigger] o[j] by {
                let i2 = if i < pos { i } else { i - 1 };
                let j2 = if j < pos { j } else { j - 1 };
                if i != pos && j != pos {
                    assert(o[i] == old_order[i2]);
                    assert(o[j] == old_order[j2]);
                } else if i == pos {
                    assert(o[j] == old_order[j2]);
                } else {
                    assert(o[i] == old_order[i2]);
                }
            }
            assert forall|i: int, j: int| 0 <= i < j < o.len() implies id_before(ids@, #[trigger] o[i], #[trigger] o[j]) by {
                let i2 = if i < pos { i } else { i - 1 };
                let j2 = if j < pos { j } else { j - 1 };
                if i != pos && j != pos {
                    assert(o[i] == old_order[i2]);
                    assert(o[j] == old_order[j2]);
                } else if i == pos {
                    assert(o[j] == old_order[j2]);
                    assert(ids[old_order[j2] as int] > key);
                } else {
                    assert(o[i] == old_order[i2]);
                    assert(ids[old_order[i2] as int] <= key);
                    assert(old_order[i2] < k);
                }
            }
        }
        k = k + 1;
    }
    order
}

} // verus!
