//! Single-frame screen capture: enumeration records, capture sessions that
//! turn an asynchronous frame stream into one result, and the decoder that
//! normalises a native pixel buffer into a tightly packed RGBA raster.

pub mod error;
pub mod decode;
pub mod content;
pub mod session;
pub mod window;

pub use error::{XCapError, XCapResult};
pub use window::Window;
