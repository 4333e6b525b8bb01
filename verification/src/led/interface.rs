pub mod led_array;
pub mod led_display_write;
pub mod led_rectangular_array;

pub use led_array::LedArray;
pub use led_display_write::LedDisplayWrite;
pub use led_rectangular_array::LedRectangularArray;
pub use crate::led::pixel::Pixel;
