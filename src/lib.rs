//! Window overlay helpers: ghost-mode presentation state, and screen-region
//! capture (display selection, cropping, pixel conversion and encoding).

pub mod error;
pub mod geometry;
pub mod pixels;
pub mod encode;
pub mod window;
