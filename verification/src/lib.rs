//! The decisions of a minimal DRM/KMS display framework: which mode a monitor
//! needs, which of its buffers is drawn into, what goes into an atomic commit,
//! and what each failure means. Talking to EGL, OpenGL and the kernel is the
//! caller's part; where that and decisions alternate, the library hands out
//! stages that say what to do next and take what came of it.
pub mod commit;
pub mod egl_image;
pub mod error;
pub mod gles_context;
pub mod handle;
pub mod laws;
pub mod meaning;
pub mod mode;
pub mod monitor;
pub mod property;
pub mod request;
pub mod setup;
pub mod swapchain;

pub use error::{GlesContextError, MonitorSetupError};
pub use gles_context::GlesContext;
pub use mode::Mode;
pub use monitor::Monitor;
