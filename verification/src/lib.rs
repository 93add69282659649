//! Derivative cache for a WebP image service.
//!
//! The library holds the decision logic of the service: resolving the
//! on-disk path of a compressed derivative from a source path and its
//! modification time, resolving the effective encoding policy from an
//! optional per-directory sidecar over a global default, selecting
//! superseded derivatives for garbage collection, classifying the outcome
//! of a cache access, and tracking the completion of a prefetch walk.
//! All filesystem, network and encoder calls stay outside; callers hand
//! in plain values (paths, file contents, counters) and apply the
//! decisions returned here.

pub mod cache;
pub mod config;
pub mod paths;
pub mod pixels;
pub mod policy;
pub mod prefetch;
pub mod request;
pub mod sidecar;
pub mod text;
