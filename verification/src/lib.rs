//! Structural metadata of a Portable Executable image that is already mapped
//! into memory.
//!
//! The image is handed over as the byte slice that covers the mapped region.
//! Every offset that is derived from a field of the image is checked against
//! the length of that slice before anything is read through it, so a corrupt
//! count or address yields an error instead of a read outside the region.

pub mod bytes;
pub mod debug;
pub mod error;
pub mod export;
pub mod format;
pub mod headers;
pub mod import;
pub mod records;
pub mod tls;

pub use crate::debug::DebugTable;
pub use crate::error::Error;
pub use crate::export::ExportTable;
pub use crate::format::Format;
pub use crate::headers::PeHeaders;
pub use crate::import::ImportTable;
pub use crate::tls::{TlsCallbacks, TlsDir};
