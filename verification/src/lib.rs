//! A unified error representation for a file-transfer tool: one error type
//! that classifies filesystem conditions, permission failures, malformed
//! remote responses, underlying system failures, and arbitrary third-party
//! failures behind a single interface.

pub mod error;

pub use error::Error;
pub use error::ErrorKind;
pub use error::OpaqueError;
pub use error::SysError;
pub use error::SysErrorClass;
