//! A per-height queue of opaque tag values over a content-addressed node
//! store: tags are enqueued at a height, read back in enqueue order, and
//! cleared wholesale, while every mutation commits a fresh root digest.

pub mod actor;
pub mod error;
pub mod laws;
pub mod store;
pub mod tagstore;
