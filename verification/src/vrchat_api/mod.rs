//! The vocabulary shared with the service's request interface: its records,
//! its enumerations and its errors.

pub mod client;
pub mod error;
pub mod types;

pub use error::{VRCError, VRCResult};
