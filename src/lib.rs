//! Driver core for the EMC2301/2/3/5 family of I2C fan controllers: the
//! register catalog, the bit-field codec of every register, the duty-cycle
//! and RPM conversions, and the device model that turns fan operations into
//! register reads and writes.

pub mod bits;
pub mod chip_registers;
pub mod chip_status;
pub mod conversion;
pub mod device;
pub mod error;
pub mod fan_config;
pub mod fan_registers;
pub mod fan_tuning;
pub mod registers;
pub mod tach;

pub use device::{Emc230x, FanControl, RegisterWrite};
pub use error::Error;
pub use registers::{fan_register_address, FanRegister, FanSelect, Register};
