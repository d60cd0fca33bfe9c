//! Host-side core of an animated Voronoi renderer.
//!
//! A fixed set of two-dimensional sites drifts over time; a fragment shader
//! (an opaque external collaborator) colors every pixel by nearest-site
//! membership. This crate owns the parts with real invariants: the immutable
//! site store, the binary contract of the site buffer that the shader reads,
//! the validation that guards every buffer upload, and the immutable
//! pipeline and per-frame draw configuration. Coordinates are carried as the
//! raw bit patterns of their single-precision encoding, so the buffer bytes
//! are pinned down exactly; the host that owns the GPU device performs the
//! trigonometric animation step and all device calls.

pub mod errors;
pub mod frame;
pub mod pipeline;
pub mod site;
pub mod store;
