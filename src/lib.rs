//! Thumbnail-and-archive pipeline for images dropped into a storage bucket.
//!
//! The library decodes the notification, derives the preview's key, sizes and
//! encodes the preview, and sequences the storage calls; the storage calls
//! themselves are performed by the caller, which feeds each result back.
pub mod copy_source;
pub mod event;
pub mod keys;
pub mod pipeline;
pub mod sizing;
pub mod transform;
