//! The import descriptor array.

use crate::bytes::{array_fits, fits, read_u32, record_count, u32_at};
use crate::error::Error;
use vstd::prelude::*;

verus! {

/// Size in bytes of one import descriptor.
pub const IMPORT_DESCRIPTOR_SIZE: usize = 20;

/// One record of the import table: what the image takes from one module.
#[derive(Clone, Copy, Debug, PartialEq, Eq)]
pub struct ImportDescriptor {
    pub original_first_thunk: u32,
    pub time_date_stamp: u32,
    pub forwarder_chain: u32,
    pub name: u32,
    pub first_thunk: u32,
}

/// The import descriptor whose first byte is at `offset`.
pub open spec fn import_descriptor_at(image: Seq<u8>, offset: int) -> ImportDescriptor {
    ImportDescriptor {
        original_first_thunk: u32_at(image, offset),
        time_date_stamp: u32_at(image, offset + 4),
        forwarder_chain: u32_at(image, offset + 8),
        name: u32_at(image, offset + 12),
        first_thunk: u32_at(image, offset + 16),
    }
}

/// The array of `count` import descriptors whose first byte is at `offset`.
pub open spec fn import_descriptors_at(image: Seq<u8>, offset: int, count: nat) -> Seq<
    ImportDescriptor,
> {
    Seq::new(count, |i: int| import_descriptor_at(image, offset + IMPORT_DESCRIPTOR_SIZE * i))
}

fn read_import_descriptor(image: &[u8], offset: usize) -> (descriptor: ImportDescriptor)
    requires
        offset + IMPORT_DESCRIPTOR_SIZE <= image.len(),
    ensures
        descriptor == import_descriptor_at(image@, offset as int),
{
    ImportDescriptor {
        original_first_thunk: read_u32(image, offset),
        time_date_stamp: read_u32(image, offset + 4),
        forwarder_chain: read_u32(image, offset + 8),
        name: read_u32(image, offset + 12),
        first_thunk: read_u32(image, offset + 16),
    }
}

/// The import table: the descriptors of the array, without the all-zero
/// record that ends it.
#[derive(Clone, Debug, PartialEq, Eq)]
pub struct ImportTable {
    pub import_descriptors: Vec<ImportDescriptor>,
}

impl View for ImportTable {
    type V = Seq<ImportDescriptor>;

    open spec fn view(&self) -> Seq<ImportDescriptor> {
        self.import_descriptors@
    }
}

impl ImportTable {
    /// What [`ImportTable::parse`] returns.
    pub open spec fn spec_parse(image: Seq<u8>, rva: usize, size: usize) -> Result<
        Seq<ImportDescriptor>,
        Error,
    > {
        let count: int = record_count(size as nat, IMPORT_DESCRIPTOR_SIZE as nat);
        if fits(image.len(), rva as int, IMPORT_DESCRIPTOR_SIZE as int, count) {
            Ok(import_descriptors_at(image, rva as int, count as nat))
        } else {
            Err(Error::InvalidHeaders)
        }
    }

    /// Reads the import descriptors of a table of `size` bytes that starts
    /// `rva` bytes into the image.
    ///
    /// The table holds as many records as fit into `size` bytes. The last of
    /// them is the terminator and is left out. Fails with
    /// [`Error::InvalidHeaders`] if `size` has no room for the terminator, or
    /// if the descriptors reach outside the image.
    pub fn parse(image: &[u8], rva: usize, size: usize) -> (result: Result<ImportTable, Error>)
        ensures
            match result {
                Ok(table) => ImportTable::spec_parse(image@, rva, size) == Ok::<
                    Seq<ImportDescriptor>,
                    Error,
                >(table@),
                Err(error) => ImportTable::spec_parse(image@, rva, size) == Err::<
                    Seq<ImportDescriptor>,
                    Error,
                >(error),
            },
    {
        let records: usize = size / IMPORT_DESCRIPTOR_SIZE;
        if records == 0 {
            return Err(Error::InvalidHeaders);
        }
        let count: usize = records - 1;
        if !array_fits(image.len(), rva, IMPORT_DESCRIPTOR_SIZE, count) {
            return Err(Error::InvalidHeaders);
        }
        let mut import_descriptors: Vec<ImportDescriptor> = Vec::new();
        let mut i: usize = 0;
        while i < count
            invariant
                i <= count,
                rva + IMPORT_DESCRIPTOR_SIZE * count <= image.len(),
                import_descriptors@.len() == i,
                forall|k: int|
                    0 <= k < i ==> import_descriptors@[k] == import_descriptor_at(
                        image@,
                        rva + IMPORT_DESCRIPTOR_SIZE * k,
                    ),
            decreases count - i,
        {
            import_descriptors.push(
                read_import_descriptor(image, rva + IMPORT_DESCRIPTOR_SIZE * i),
            );
            i += 1;
        }
        assert(import_descriptors@ =~= import_descriptors_at(image@, rva as int, count as nat));
        Ok(ImportTable { import_descriptors })
    }
}

/// A table that is filled by `k` descriptors and the terminator, and that
/// lies inside the image, is read as exactly `k` descriptors.
pub proof fn lemma_import_table_holds_all_but_terminator(image: Seq<u8>, rva: usize, k: nat)
    requires
        rva + IMPORT_DESCRIPTOR_SIZE * (k + 1) <= image.len(),
        IMPORT_DESCRIPTOR_SIZE * (k + 1) <= usize::MAX,
    ensures
        ImportTable::spec_parse(image, rva, (IMPORT_DESCRIPTOR_SIZE * (k + 1)) as usize) matches Ok(
            descriptors,
        ) && descriptors.len() == k,
{
}

} // verus!
