//! The reasons for which a reader gives up.

use vstd::prelude::*;

verus! {

/// Why a header or a table could not be produced.
#[derive(Clone, Copy, Debug, PartialEq, Eq, Hash)]
pub enum Error {
    /// A signature or the optional-header magic is wrong, the offset of the NT
    /// headers is implausible, or a count or address taken from the image
    /// reaches outside the mapped region.
    InvalidHeaders,
    /// The export directory entry is absent or empty.
    MissingExportTable,
    /// The import directory entry is absent or empty.
    MissingImportTable,
    /// The debug directory entry is absent or empty.
    MissingDebugTable,
    /// The directory array is too short to hold a TLS entry.
    MissingTlsTable,
}

} // verus!
