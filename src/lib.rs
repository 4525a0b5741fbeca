//! Type layer for asset ingestion: assets, the formats that decode them from
//! bytes, and the handles that let a loader hold formats of different kinds.
pub mod asset;
pub mod error;
pub mod format;

pub use asset::{trivial_process, Asset, ProcessableAsset, ProcessingState};
pub use error::{ImportError, SOURCE_FAILURE};
pub use format::{wrap_decoded, Format, FormatValue, SerializableFormat, Source};
