//! Frame-pipelined streaming of scene data into device-visible memory.
//!
//! Scalars that the device reads as single-precision floats are held here as
//! their IEEE-754 binary32 bit patterns (`u32`), so that every decision the
//! library makes about them (magnitude comparison, absolute value, zeroed
//! records) is stated and proved over plain integers.
pub mod bounded;
pub mod color;
pub mod command;
pub mod cosmos;
pub mod error;
pub mod ieee;
pub mod planet;
pub mod renderutils;
pub mod scene;
pub mod star;
pub mod transform;
pub mod util;
