//! Verified core of a small offline path tracer.
//!
//! The renderer's output side is exact integer and byte logic, and that is
//! what this library verifies: a row-major RGB byte buffer with bounds-checked
//! pixel accessors, and the binary PPM export format (an ASCII `P6` header
//! followed by the raw pixel bytes). The floating-point parts of the renderer
//! (vector algebra, ray-shape intersection, the camera, and the stochastic
//! integrator) cannot be expressed in verified code and live with the driver
//! that calls this library.

pub mod export;
pub mod image;

pub use image::PPM;
pub use image::RGB;
pub use image::rgb;
