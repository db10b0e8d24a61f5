//! Typed views of the host's plugin API surfaces.

pub mod fs;
pub mod http;
pub mod os;
