//! Convenience re-exports for extension modules: the items every extension
//! touches, under one roof.

pub use crate::error::prepare_error_message;
pub use crate::error::PikeError;
pub use crate::interpreter::PikeContext;
