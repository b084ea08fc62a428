//! A window-handle library in the style of ATL's `CWindow`, written so that
//! every decision it takes is proved correct.
//!
//! The library never talks to the window manager itself. Each operation that
//! needs answers from the system is a small state machine: it hands out a
//! [`request::Request`] (get the parent of a window, read its style, move it,
//! ...), takes the [`request::Reply`] that the caller obtained, and decides
//! the next request or the final result. Plain computations (style masks,
//! rectangle arithmetic, UTF-16 text buffers, thunk layouts) are ordinary
//! verified functions.
#![allow(non_snake_case)]

pub mod win;
pub mod geometry;
pub mod request;
pub mod cwindow;
pub mod center;
pub mod style;
pub mod walk;
pub mod descend;
pub mod broadcast;
pub mod resize;
pub mod text;
pub mod mapping;
pub mod create;
pub mod bytes;
pub mod thunk_x64;
pub mod thunk_x86;
