//! Resources that are not kept per frame in flight.
pub mod shader_buffer;
