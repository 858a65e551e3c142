//! The window lifecycle: class registration, the shared window object and
//! the handle that owns it.

pub mod class;
pub mod inner;
pub mod laws;
pub mod lifecycle;

pub use class::{ClassRegistry, ClassRequest, WindowClass};
pub use inner::{CreateParams, MessageOutcome, Theme, WindowInner, WindowInnerState, WindowState};
pub use lifecycle::{Effect, HandleCell, Lifecycle, LifecycleEvent, NativeShare};
