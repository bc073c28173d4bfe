//! The verified core of the fill-level sensor's firmware: what it sends to the status LED, the
//! sensor, the flash chip and the web client, and how its build settings are read.

pub mod bounded;
pub mod build_config;
pub mod bus;
pub mod http;
pub mod led;
pub mod sensor;
pub mod storage;
pub mod system;
pub mod text;
pub mod ticks;
pub mod wifi;
