//! The logic of a clock-face time picker, free of any drawing toolkit.

pub mod angle;
pub mod dial;
pub mod picker;
pub mod state;
pub mod summary;

pub use dial::{DialScene, Label, Polar};
pub use picker::TimePicker;
pub use state::{DialInput, DragTarget};
