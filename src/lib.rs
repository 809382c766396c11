//! A host-side registry of digest algorithms and the calling contract that every
//! algorithm entry point obeys: ownership of the buffers that cross the call,
//! capability flags, options, status codes, registration and reloading.

pub mod buffer;
pub mod bytes;
pub mod flags;
pub mod options;
pub mod function;
pub mod providers;
pub mod names;
pub mod registry;
pub mod host;
pub mod loader;
pub mod result;
pub mod hashes;
pub mod app;
