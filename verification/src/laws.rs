//! What the drivers are for.
//!
//! A law here speaks of a call: of what went in, of what came back, and of what became of the
//! state. It says in numbers what the hardware is told to do, or how two calls relate.
pub mod bits;
pub mod chip;
pub mod debug_print;
pub mod gpio;
pub mod gpt;
pub mod hw;
pub mod prcm;
pub mod rtc;
pub mod scif_driver;
pub mod time_driver;
pub mod uart;
pub mod udma;
