//! Forward rendering techniques over a recorded command stream.
//!
//! A technique turns a parameter value, a render target and the registered
//! scenes into draw and clear commands, which it appends to a
//! [`command::CommandContext`]. Nothing here talks to a device: a
//! [`pipeline::Builder`] says what a factory has to build and takes its
//! answers, and device objects are referred to by the handles of [`handle`].

pub mod bits;
pub mod command;
pub mod error;
pub mod flat;
pub mod forward;
pub mod handle;
pub mod method;
pub mod pass;
pub mod pipeline;
pub mod scene;
pub mod shaders;
pub mod state;
pub mod target;
pub mod wireframe;

pub use crate::method::ApplyError;
pub use crate::method::Method;
pub use crate::pass::Clear;
pub use crate::pass::FlatShading;
pub use crate::pass::Wireframe;
pub use crate::scene::Fragment;
pub use crate::scene::Scene;
pub use crate::scene::Scenes;
pub use crate::scene::VertexPosNormal;
pub use crate::target::Camera;
pub use crate::target::ScreenOutput;
