//! A batched 2D sprite renderer, modelled over whole numbers.
//!
//! Draw requests accumulate in a shared vertex buffer and reach the graphics
//! device as late as possible: when the bound texture changes, or when the
//! frame is presented. Sprites are rendered into an offscreen surface of fixed
//! resolution, which is then scaled by a whole factor and centred in the window.
//!
//! The library decides; it never talks to the device. Every operation appends
//! the device commands it calls for to the context's queue, and the caller that
//! owns the device carries them out in order.

pub mod geometry;
pub mod projection;
pub mod params;
pub mod context;
pub mod graphics;
pub mod laws;
