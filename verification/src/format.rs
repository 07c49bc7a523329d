//! The two variants of the format, and the constants that tell them apart.

use vstd::prelude::*;

verus! {

/// The signature of the DOS header: the bytes `MZ`.
pub const IMAGE_DOS_SIGNATURE: u16 = 0x5A4D;

/// The signature of the NT headers: the bytes `PE\0\0`.
pub const IMAGE_NT_SIGNATURE: u32 = 0x0000_4550;

/// The optional-header magic of a 32-bit image.
pub const IMAGE_NT_OPTIONAL_HDR32_MAGIC: u16 = 0x10b;

/// The optional-header magic of a 64-bit image.
pub const IMAGE_NT_OPTIONAL_HDR64_MAGIC: u16 = 0x20b;

/// The largest offset of the NT headers that is taken seriously.
pub const MAX_NT_HEADERS_OFFSET: u32 = 1024;

/// Index of the export table in the data directory array.
pub const IMAGE_DIRECTORY_ENTRY_EXPORT: usize = 0;

/// Index of the import table in the data directory array.
pub const IMAGE_DIRECTORY_ENTRY_IMPORT: usize = 1;

/// Index of the debug table in the data directory array.
pub const IMAGE_DIRECTORY_ENTRY_DEBUG: usize = 6;

/// Index of the TLS directory in the data directory array.
pub const IMAGE_DIRECTORY_ENTRY_TLS: usize = 9;

/// Which of the two layouts an image has. The layouts differ in the width of
/// the fields that hold a virtual address.
#[derive(Clone, Copy, Debug, PartialEq, Eq, Hash)]
pub enum Format {
    /// 32-bit: magic `0x10b`, addresses of four bytes.
    Pe32,
    /// 64-bit: magic `0x20b`, addresses of eight bytes.
    Pe32Plus,
}

impl Format {
    /// The variant that an optional-header magic selects.
    pub open spec fn of_magic(magic: u16) -> Option<Format> {
        if magic == IMAGE_NT_OPTIONAL_HDR32_MAGIC {
            Some(Format::Pe32)
        } else if magic == IMAGE_NT_OPTIONAL_HDR64_MAGIC {
            Some(Format::Pe32Plus)
        } else {
            None
        }
    }

    /// The variant that an optional-header magic selects, if it selects one.
    pub fn from_magic(magic: u16) -> (format: Option<Format>)
        ensures
            format == Format::of_magic(magic),
    {
        if magic == IMAGE_NT_OPTIONAL_HDR32_MAGIC {
            Some(Format::Pe32)
        } else if magic == IMAGE_NT_OPTIONAL_HDR64_MAGIC {
            Some(Format::Pe32Plus)
        } else {
            None
        }
    }

    pub open spec fn spec_magic(self) -> u16 {
        match self {
            Format::Pe32 => IMAGE_NT_OPTIONAL_HDR32_MAGIC,
            Format::Pe32Plus => IMAGE_NT_OPTIONAL_HDR64_MAGIC,
        }
    }

    /// The optional-header magic of this variant.
    #[verifier::when_used_as_spec(spec_magic)]
    pub fn magic(self) -> (magic: u16)
        ensures
            magic == self.spec_magic(),
    {
        match self {
            Format::Pe32 => IMAGE_NT_OPTIONAL_HDR32_MAGIC,
            Format::Pe32Plus => IMAGE_NT_OPTIONAL_HDR64_MAGIC,
        }
    }

    pub open spec fn spec_pointer_size(self) -> usize {
        match self {
            Format::Pe32 => 4,
            Format::Pe32Plus => 8,
        }
    }

    /// Size in bytes of a field that holds a virtual address.
    #[verifier::when_used_as_spec(spec_pointer_size)]
    pub fn pointer_size(self) -> (size: usize)
        ensures
            size == self.spec_pointer_size(),
    {
        match self {
            Format::Pe32 => 4,
            Format::Pe32Plus => 8,
        }
    }

    pub open spec fn spec_nt_headers_size(self) -> usize {
        match self {
            Format::Pe32 => 120,
            Format::Pe32Plus => 136,
        }
    }

    /// Size in bytes of the NT headers: signature, file header and optional
    /// header, without the data directory array that follows them.
    #[verifier::when_used_as_spec(spec_nt_headers_size)]
    pub fn nt_headers_size(self) -> (size: usize)
        ensures
            size == self.spec_nt_headers_size(),
    {
        match self {
            Format::Pe32 => 120,
            Format::Pe32Plus => 136,
        }
    }

    pub open spec fn spec_tls_directory_size(self) -> usize {
        match self {
            Format::Pe32 => 24,
            Format::Pe32Plus => 40,
        }
    }

    /// Size in bytes of the TLS directory.
    #[verifier::when_used_as_spec(spec_tls_directory_size)]
    pub fn tls_directory_size(self) -> (size: usize)
        ensures
            size == self.spec_tls_directory_size(),
    {
        match self {
            Format::Pe32 => 24,
            Format::Pe32Plus => 40,
        }
    }
}

} // verus!
