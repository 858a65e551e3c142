//! A small toolkit for native desktop windows.
//!
//! The crate holds the decisions of a windowing and drawing layer, verified,
//! and leaves the calls into the operating system to the application that
//! uses it:
//!
//! - [`keyboard`] decodes keyboard messages and tracks pressed keys and typed
//!   text;
//! - [`window`] shares window classes through a registry and runs the
//!   ownership protocol between a window object and its native window;
//! - [`gfx`] keeps the render target, the frame context and the brushes in
//!   step across a loss of the drawing device;
//! - [`invoke`] and [`errors`] turn the results of native calls into typed
//!   errors;
//! - [`geom`], [`types`], [`strings`] and [`proc`] are the small parts that
//!   the others rest on, and [`game`] lays out the demo's frame.
//!
//! Every module states what it does over plain mathematical values, and
//! proof functions state what follows from that for every input.

pub mod errors;
pub mod game;
pub mod geom;
pub mod gfx;
pub mod invoke;
pub mod keyboard;
pub mod proc;
pub mod strings;
pub mod types;
pub mod window;
