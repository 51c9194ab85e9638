//! The verified core of the ESP-IDF Matter transports: the BTP GATT peripheral and central on top
//! of the NimBLE host, and the Thread network controller with its SRP registrar.
//!
//! Every item here decides or computes; the radio, the BTP engine, the timers and the event hooks
//! are driven by the crate that embeds this one. It performs the action that it is handed and
//! reports back what came of it.

pub mod ble;
pub mod bytes;
pub mod error;
pub mod storage;
pub mod thread;
pub mod time;
pub mod wireless;
