//! Interaction and animation model for a small set of immediate-mode
//! widgets: a push button with eased hover and press animations, and a
//! single-line text box fed from a table of keys.
//!
//! Nothing here touches a window, a keyboard or a network. The caller
//! samples its input backend once per frame into a [`pointer::Pointer`] and
//! a [`keys::KeyInput`], hands them to the widgets, and replays the
//! [`render::DrawCommand`]s that come back. All continuous state is
//! fixed-point (see [`fixed`]), so every step is an exact integer
//! computation with a stated result.

pub mod button;
pub mod fixed;
pub mod geometry;
pub mod keys;
pub mod pointer;
pub mod render;
pub mod session;
pub mod text;
pub mod textbox;
