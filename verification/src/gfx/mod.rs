//! The drawing layer: colors, the render target state machine and the
//! device resources that follow it across a loss of the device.

pub mod brushes;
pub mod color;
pub mod context;
pub mod laws;
pub mod palette;
pub mod target;

pub use brushes::SolidColorBrush;
pub use color::Color;
pub use context::Context;
pub use target::{EndDraw, RenderTarget, State};
