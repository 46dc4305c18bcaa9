//! Core data and decision logic of a retained-mode GUI toolkit: positions and
//! sizes, colours held by environment states, input events and the handler
//! that turns raw input into widget events, font families, canvas contexts
//! and the paths they draw, image filters, and the layout of stacks.
//!
//! Coordinates, sizes, colour components and filter weights are IEEE 754
//! numbers. The library carries them as their bit encodings ([`Scalar`],
//! [`Scalar32`]); it compares them itself, on the encodings, and leaves their
//! arithmetic to `rustc_apfloat`, a software implementation of IEEE 754 whose
//! results the contracts name (see [`scalar`]).
use vstd::prelude::*;

pub mod scalar;
pub mod position;
pub mod event;
pub mod table;
pub mod event_handler;
pub mod font;
pub mod context;
pub mod filter;
pub mod color;
pub mod environment_color_state;
pub mod state_sync;
pub mod widget_event;
pub mod primitives;
pub mod image;
pub mod stack;
pub mod window_loop;
pub mod laws;

pub use scalar::{Scalar, Scalar32};
pub use position::{Dimension, Position, Rect};

verus! {

} // verus!
