//! Tilt-to-grid logic of a bubble level on a 5x5 LED matrix: the remap of
//! accelerometer axes into the display frame, the choice of the lit cell for
//! a sensitivity mode, and the two-state mode selection driven by buttons.

pub mod axes;
pub mod mode;
pub mod bubble;
pub mod refresh;

pub use axes::convert_axes;
pub use bubble::{
    bubble_grid, bubble_position, cell_index, get_bubble_pos_course, get_bubble_pos_fine,
    grid_for, Grid, GridPosition, GRID_SIZE,
};
pub use mode::Mode;
pub use refresh::{refresh_frame, FRAME_TIME_MS};
