//! Ownership and status bookkeeping for reference-counted native handles.

pub mod borrowed;
pub mod context;
pub mod error;
pub mod native;
pub mod surface;

pub use borrowed::Borrowed;
pub use context::Context;
pub use error::{status_to_result, Error};
pub use native::{NativeObject, NativeObjects};
pub use surface::Surface;
