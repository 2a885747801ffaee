//! Decoding images of several container formats behind one interface,
//! while the embedded metadata of the source rides along and can be
//! persisted on its own: a per-format pixel decoder and the source's tag
//! store are owned together and used independently.

pub mod buffer;
pub mod color;
pub mod decoder;
pub mod engine;
pub mod error;
pub mod format;
pub mod metadata;
