//! Safe access to a chained Ogg Opus decoding engine: the error taxonomy for its
//! status codes, the decisions of the byte-source callbacks that it drives, and
//! the extraction of per-link header and comment metadata into owned values.

pub mod error;
pub mod head;
pub mod source;
pub mod status;
pub mod tags;

pub use error::{OpusFileError, OpusFileResult};
pub use head::{NativeHead, OpusHead};
pub use source::{FillStep, ReadOutcome, ReadSeek, SeekOutcome, SeekTarget, SourceKind};
pub use tags::{NativeTags, OpusTags};
