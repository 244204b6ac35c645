//! Device-level logic for Raspberry Pi Pico peripherals: LED layouts and
//! frames, seven-segment and 3×4 fonts, IR remote decoding, flash blocks,
//! clock arithmetic and the state machines that drive the displays.

pub mod grid;
pub mod led_layout;
pub mod mapping;
pub mod ir_nec;
pub mod error;
pub mod flash_block;
pub mod led_4seg;
pub mod bit_matrix;
pub mod bit_matrix_4led;
pub mod bit_matrix_led4;
pub mod cwf;
pub mod bit_matrix3x4;
pub mod color;
pub mod led12x4;
pub mod led2d;
pub mod dns_server;
pub mod animation;
pub mod time_sync;
pub mod clock_time;
pub mod clock_led4;
pub mod offset_time;
pub mod button;
pub mod led4;
pub mod blink_state;
pub mod blinkable_display;
pub mod blinker_4led;
pub mod blinker_led4;
pub mod clock_state;
pub mod clock_4led;
pub mod clock;
pub mod led_strip;
pub mod led_strip_simple;
pub mod rfid_cards;
pub mod bits_to_indexes;
pub mod output_array;
pub mod multiplex;
pub mod char_lcd_i2c;
pub mod char_lcd;
pub mod led_24x4;
pub mod clock_offset_store;
pub mod ir_mapping;
pub mod ir_kepler;
pub mod slice_iter;
