//! The debug directory array.

use crate::bytes::{array_fits, fits, read_u16, read_u32, record_count, u16_at, u32_at};
use crate::error::Error;
use vstd::prelude::*;

verus! {

/// Size in bytes of one debug directory.
pub const DEBUG_DIRECTORY_SIZE: usize = 28;

/// One record of the debug table: where one block of debug information lies.
#[derive(Clone, Copy, Debug, PartialEq, Eq)]
pub struct DebugDirectory {
    pub characteristics: u32,
    pub time_date_stamp: u32,
    pub major_version: u16,
    pub minor_version: u16,
    pub typ: u32,
    pub size_of_data: u32,
    pub address_of_raw_data: u32,
    pub pointer_to_raw_data: u32,
}

/// The debug directory whose first byte is at `offset`.
pub open spec fn debug_directory_at(image: Seq<u8>, offset: int) -> DebugDirectory {
    DebugDirectory {
        characteristics: u32_at(image, offset),
        time_date_stamp: u32_at(image, offset + 4),
        major_version: u16_at(image, offset + 8),
        minor_version: u16_at(image, offset + 10),
        typ: u32_at(image, offset + 12),
        size_of_data: u32_at(image, offset + 16),
        address_of_raw_data: u32_at(image, offset + 20),
        pointer_to_raw_data: u32_at(image, offset + 24),
    }
}

/// The array of `count` debug directories whose first byte is at `offset`.
pub open spec fn debug_directories_at(image: Seq<u8>, offset: int, count: nat) -> Seq<
    DebugDirectory,
> {
    Seq::new(count, |i: int| debug_directory_at(image, offset + DEBUG_DIRECTORY_SIZE * i))
}

fn read_debug_directory(image: &[u8], offset: usize) -> (descriptor: DebugDirectory)
    requires
        offset + DEBUG_DIRECTORY_SIZE <= image.len(),
    ensures
        descriptor == debug_directory_at(image@, offset as int),
{
    DebugDirectory {
        characteristics: read_u32(image, offset),
        time_date_stamp: read_u32(image, offset + 4),
        major_version: read_u16(image, offset + 8),
        minor_version: read_u16(image, offset + 10),
        typ: read_u32(image, offset + 12),
        size_of_data: read_u32(image, offset + 16),
        address_of_raw_data: read_u32(image, offset + 20),
        pointer_to_raw_data: read_u32(image, offset + 24),
    }
}

/// The debug table: the directories of the array, without the all-zero
/// record that ends it.
#[derive(Clone, Debug, PartialEq, Eq)]
pub struct DebugTable {
    pub debug_descriptors: Vec<DebugDirectory>,
}

impl View for DebugTable {
    type V = Seq<DebugDirectory>;

    open spec fn view(&self) -> Seq<DebugDirectory> {
        self.debug_descriptors@
    }
}

impl DebugTable {
    /// What [`DebugTable::parse`] returns.
    pub open spec fn spec_parse(image: Seq<u8>, rva: usize, size: usize) -> Result<
        Seq<DebugDirectory>,
        Error,
    > {
        let count: int = record_count(size as nat, DEBUG_DIRECTORY_SIZE as nat);
        if fits(image.len(), rva as int, DEBUG_DIRECTORY_SIZE as int, count) {
            Ok(debug_directories_at(image, rva as int, count as nat))
        } else {
            Err(Error::InvalidHeaders)
        }
    }

    /// Reads the debug directories of a table of `size` bytes that starts
    /// `rva` bytes into the image.
    ///
    /// The table holds as many records as fit into `size` bytes. The last of
    /// them is the terminator and is left out. Fails with
    /// [`Error::InvalidHeaders`] if `size` has no room for the terminator, or
    /// if the directories reach outside the image.
    pub fn parse(image: &[u8], rva: usize, size: usize) -> (result: Result<DebugTable, Error>)
        ensures
            match result {
                Ok(table) => DebugTable::spec_parse(image@, rva, size) == Ok::<
                    Seq<DebugDirectory>,
                    Error,
                >(table@),
                Err(error) => DebugTable::spec_parse(image@, rva, size) == Err::<
                    Seq<DebugDirectory>,
                    Error,
                >(error),
            },
    {
        let records: usize = size / DEBUG_DIRECTORY_SIZE;
        if records == 0 {
            return Err(Error::InvalidHeaders);
        }
        let count: usize = records - 1;
        if !array_fits(image.len(), rva, DEBUG_DIRECTORY_SIZE, count) {
            return Err(Error::InvalidHeaders);
        }
        let mut debug_descriptors: Vec<DebugDirectory> = Vec::new();
        let mut i: usize = 0;
        while i < count
            invariant
                i <= count,
                rva + DEBUG_DIRECTORY_SIZE * count <= image.len(),
                debug_descriptors@.len() == i,
                forall|k: int|
                    0 <= k < i ==> debug_descriptors@[k] == debug_directory_at(
                        image@,
                        rva + DEBUG_DIRECTORY_SIZE * k,
                    ),
            decreases count - i,
        {
            debug_descriptors.push(
                read_debug_directory(image, rva + DEBUG_DIRECTORY_SIZE * i),
            );
            i += 1;
        }
        assert(debug_descriptors@ =~= debug_directories_at(image@, rva as int, count as nat));
        Ok(DebugTable { debug_descriptors })
    }
}

/// A table that is filled by `k` directories and the terminator, and that
/// lies inside the image, is read as exactly `k` directories.
pub proof fn lemma_debug_table_holds_all_but_terminator(image: Seq<u8>, rva: usize, k: nat)
    requires
        rva + DEBUG_DIRECTORY_SIZE * (k + 1) <= image.len(),
        DEBUG_DIRECTORY_SIZE * (k + 1) <= usize::MAX,
    ensures
        DebugTable::spec_parse(image, rva, (DEBUG_DIRECTORY_SIZE * (k + 1)) as usize) matches Ok(
            directories,
        ) && directories.len() == k,
{
}

} // verus!
