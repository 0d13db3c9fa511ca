//! Control core of the STM32F4DISCOVERY demo: the LED ring, the orientation mapping, the serial
//! command interpreter and the decisions of the scheduled tasks.

pub mod arbiter;
pub mod interpreter;
pub mod led_ring;
pub mod line_buffer;
pub mod sensor;
pub mod tasks;
