//! A network (IP) camera exposed as a uniform capture device.
//!
//! The facade owns a network address together with a model of the opened
//! capture device; decoded frames are handed to the facade by whatever layer
//! performs the actual network reads, and the facade serves them back as RGB
//! or RGBA buffers, or uploads them into a GPU texture.

pub mod camera;
pub mod error;
pub mod frame;
pub mod texture;

pub use camera::{CaptureDevice, NetworkCamera};
pub use error::NokhwaError;
pub use frame::{FrameBuffer, Resolution};
pub use texture::FrameTexture;
