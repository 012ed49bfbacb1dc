//! Verified core of a driver layer for the serial peripheral bus and the tasks
//! of an ESP32: it builds what is handed to the vendor driver and the kernel,
//! and says what their answers mean.

pub mod errors;
pub mod spi;
pub mod tasks;
