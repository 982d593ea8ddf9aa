//! Biometric authentication facade.
//!
//! The facade owns an optional capability handle. With a handle, every
//! request is forwarded to the native side through a caller-supplied
//! boundary call; without one, `status` answers with a fixed "unavailable"
//! record and `authenticate` succeeds without issuing any request.

pub mod error;
pub mod facade;
pub mod models;
pub mod request;

pub use error::{Error, ErrorKind, NativeError};
pub use facade::{init, Biometric, Platform, PLUGIN_NAME};
pub use models::{AuthOptions, AuthenticatePayload, BiometryType, Status};
pub use request::{Request, Response};
