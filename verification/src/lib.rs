//! Off-screen render targets ("canvases") for a small graphics core.
//!
//! A canvas is a texture-backed surface that draw commands can be redirected
//! into instead of the screen.  The crate models the backend at its interface
//! boundary — textures, the two views derived from one allocation, and the
//! context's single active render destination — as plain values, and proves
//! the lifecycle around them: allocation is all-or-nothing, both views of a
//! canvas always name the same allocation, and switching the destination
//! moves nothing but the destination.

pub mod canvas;
pub mod context;
pub mod error;
pub mod gpu;
pub mod graphics;
