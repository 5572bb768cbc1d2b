//! Frame lifecycle of a single-window renderer: which surface configuration is
//! in force, what one frame draws, and what the frame loop does with each
//! window event and each outcome of presenting a frame.
//!
//! Nothing here touches a window or a graphics device. The caller owns those,
//! reports what they did as plain values, and carries out the commands that
//! come back.

pub mod context;
pub mod driver;
pub mod error;
pub mod event;
pub mod pipeline;
pub mod size;
pub mod startup;
pub mod surface;

pub use context::RenderContext;
pub use driver::{Command, ControlFlow, FrameDriver};
pub use error::{Recovery, RenderError, StartupError};
pub use event::{Event, WindowEvent};
pub use size::Size;
pub use surface::{SurfaceCapabilities, SurfaceConfig};
