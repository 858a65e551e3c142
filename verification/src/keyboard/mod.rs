//! Input and state handling for keyboard events.

pub mod adapter;
pub mod bits;
pub mod codes;
pub mod flags;
pub mod kbd;
pub mod laws;
pub mod text;

pub use adapter::{Adapter, KeyEvent};
pub use codes::KeyCode;
pub use flags::KeystrokeFlags;
pub use kbd::{InputBuffer, Keyboard, KeyboardState};
