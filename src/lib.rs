//! Camera state, uniform layout and input mapping for a fragment-shader viewer.
//!
//! The floating-point camera arithmetic lives with the renderer; this library
//! holds the camera's values as IEEE 754 single-precision bit patterns and
//! decides everything that does not need arithmetic on them: which values are
//! admissible, how the camera is laid out for the shader, what an input event
//! does to the camera, and when the GPU copy of the camera must be refreshed.

pub mod float_bits;
pub mod camera;
pub mod uniform;
pub mod input;
pub mod host;
