//! A rendering front end that runs on one of two graphics backends.
//!
//! The crate holds the decisions of a renderer and none of its native calls:
//! which backend a display runs on, which handles it accepts, what the frame
//! engine's swapchain and shape list look like after each operation, what
//! every uniform buffer holds, and which commands a frame records. The layer
//! that owns the window and the device performs what these functions decide.
//! Numbers that the device reads as single-precision floats are carried as
//! their 32-bit patterns.

pub mod command;
pub mod display;
pub mod error;
pub mod instance;
pub mod laws;
pub mod renderer;
pub mod resources;
pub mod selector;
pub mod surface;
pub mod values;
pub mod vw;

pub use command::Command;
pub use display::{Backend, Display, Gradient, Model, ShapeHandle, TexCoords, Texture, Update};
pub use error::Error;
pub use instance::{Bindings, Shape, VwInstance};
pub use renderer::{Projection, Renderer, State};
pub use resources::{NativeTexture, Shader, Style, Variant, VwShape};
pub use selector::{attempt, new_display};
pub use values::{Camera, Fog, Rgb, Vec3, ONE};
pub use surface::{create_surface, create_surface_xcb, SurfaceCreateInfo, SurfaceError, WindowConnection};
pub use vw::{close, Host, Vw};
