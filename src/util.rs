//! Device-resource pools and static geometry.
pub mod shader_buffer;
pub mod static_buffer;
pub mod texture_set;
