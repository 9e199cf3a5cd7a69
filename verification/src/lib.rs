//! The exact core of an explorer for escape-time fractals.
//!
//! Everything here works on integers: pixel coordinates, iteration counts,
//! colour channels and the bit patterns of the plane coordinates. The
//! floating-point arithmetic that turns a pixel into a point of the plane and
//! iterates on it belongs to the caller; this library decides which pixels to
//! visit, what colour an escape index gets, where a dragged rectangle leads,
//! what the navigation history holds, what a key or a mouse gesture asks for
//! and whether a zoom level can still be resolved.

pub mod all_between;
pub mod binary64;
pub mod color;
pub mod controller;
pub mod escape;
pub mod history;
pub mod pixel;
pub mod precision;
pub mod raster;
pub mod view;
pub mod zoom_box;
