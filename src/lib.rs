//! Image-based-lighting precomputation: resource models, pass plans and the
//! readback path that turns GPU render targets into radiance HDR files.

pub mod mip;
pub mod error;
pub mod format;
pub mod resource;
pub mod texture;
pub mod readback;
pub mod projector;
pub mod mipmap;
pub mod codec;
pub mod ibl;
pub mod artifact;
pub mod session;
pub mod staging;
pub mod plan;
