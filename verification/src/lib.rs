//! A verified core for a resizable 2D scene of axis-aligned rectangles.
//!
//! The crate models the rendering engine over plain integer data: the
//! window-space to clip-space transform as exact rationals, device buffers
//! as records in a geometry cache, and a frame as the list of commands it
//! records.  A thin unverified shell owns the actual graphics device and
//! window, converts their values to and from this model, and performs the
//! calls the model prescribes.

pub mod bind_group;
pub mod context;
pub mod geometry;
pub mod math;
pub mod pass;
pub mod scene;
pub mod text;
pub mod widgets;
