//! Saving of base64-encoded PNG images from a data URL.
//!
//! The library validates a `data:image/png;base64,` data URL, decodes its
//! payload, and plans a write of the decoded bytes to a destination
//! directory under a timestamped filename. The surrounding host performs
//! the actual filesystem write and hands the outcome back.

pub mod codec;
pub mod host;
pub mod save;
pub mod timestamp;

pub use save::PlannedWrite;
pub use save::SaveError;
pub use save::SaveRequest;
pub use save::SaveResult;
pub use timestamp::Timestamp;
