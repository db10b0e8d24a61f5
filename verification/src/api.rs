//! Typed views of the host's core API surface.

pub mod dpi;
