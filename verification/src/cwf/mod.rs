//! The clock-with-flash variant of the 4-digit clock.

pub mod bit_matrix;
pub mod blink_state;
pub mod clock_state;
pub mod leds;
