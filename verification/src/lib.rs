//! A client-side window frame for borderless windows.
//!
//! The library computes, from a style value and the per-frame input
//! (viewport clip rectangle, pointer position, maximize flag), which
//! interactive regions to register, which resize cursor to show, and
//! which window commands (begin-resize, begin-drag, toggle-maximize)
//! to emit. All geometry is in integer viewport-local coordinates;
//! a host GUI layer performs the actual painting and command delivery.

pub mod frame;
pub mod geom;
pub mod laws;
pub mod style;
