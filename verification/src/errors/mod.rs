//! The application's error type and its context chains.
pub mod anyhow;
pub mod context;
pub mod generic_error;

pub use self::anyhow::GenericAnyhowedError;
pub use self::context::Context;
pub use self::generic_error::{GenericError, GenericResult};
