//! Connectionless Bluetooth LE mesh: the decisions of the connection manager.
pub mod address;
pub mod advertising;
pub mod agent;
pub mod centrals;
pub mod device;
pub mod error;
pub mod gatt;
pub mod laws;
pub mod manager;
pub mod monitor;
pub mod protocol;
pub mod scan;
pub mod setup;

pub use address::Address;
pub use error::Error;
