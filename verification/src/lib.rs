//! Conversion of a rasterized shell icon into an RGBA pixel buffer.
//!
//! The platform hands the caller an icon whose pixels come back in BGRA
//! channel order together with a hotspot-encoded size field. This library
//! holds the verified core of that conversion: the in-place BGRA-to-RGBA
//! channel reordering, and the extraction protocol that validates the
//! dimensions and the pixel format and guarantees that every transient
//! platform handle is released exactly once on every path.

pub mod extract;
pub mod reorder;
