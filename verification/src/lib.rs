//! Verified core of a media-session monitor: selecting one session among the
//! active ones by a case-insensitive preference, flattening a session's
//! observable state into a comparable snapshot, normalizing thumbnail artwork
//! (square-pad or fixed logo-crop, then PNG + base64), and deciding when a
//! change notification must be emitted.

pub mod snapshot;
pub mod text;
pub mod selector;
pub mod raster;
pub mod codec;
pub mod builder;
pub mod control;

pub use snapshot::Snapshot;
