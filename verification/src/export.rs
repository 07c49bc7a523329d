//! The export directory and its three arrays.

use crate::bytes::{
    array_fits, fits, has_c_string_at, is_c_string_at, read_c_string, read_u16, read_u16_array,
    read_u32, read_u32_array, u16_array_at, u16_at, u32_array_at, u32_at,
};
use crate::error::Error;
use vstd::prelude::*;

verus! {

/// Size in bytes of the export directory.
pub const EXPORT_DIRECTORY_SIZE: usize = 40;

/// The fixed part of the export table.
#[derive(Clone, Copy, Debug, PartialEq, Eq)]
pub struct ExportDirectory {
    pub characteristics: u32,
    pub time_date_stamp: u32,
    pub major_version: u16,
    pub minor_version: u16,
    pub name: u32,
    pub base: u32,
    /// Length of the address table.
    pub number_of_functions: u32,
    /// Length of the name table and of the ordinal table.
    pub number_of_names: u32,
    /// Offset of the address table from the start of the image.
    pub address_of_functions: u32,
    /// Offset of the name table from the start of the image.
    pub address_of_names: u32,
    /// Offset of the ordinal table from the start of the image.
    pub address_of_name_ordinals: u32,
}

/// The export directory whose first byte is at `offset`.
pub open spec fn export_directory_at(image: Seq<u8>, offset: int) -> ExportDirectory {
    ExportDirectory {
        characteristics: u32_at(image, offset),
        time_date_stamp: u32_at(image, offset + 4),
        major_version: u16_at(image, offset + 8),
        minor_version: u16_at(image, offset + 10),
        name: u32_at(image, offset + 12),
        base: u32_at(image, offset + 16),
        number_of_functions: u32_at(image, offset + 20),
        number_of_names: u32_at(image, offset + 24),
        address_of_functions: u32_at(image, offset + 28),
        address_of_names: u32_at(image, offset + 32),
        address_of_name_ordinals: u32_at(image, offset + 36),
    }
}

fn read_export_directory(image: &[u8], offset: usize) -> (directory: ExportDirectory)
    requires
        offset + EXPORT_DIRECTORY_SIZE <= image.len(),
    ensures
        directory == export_directory_at(image@, offset as int),
{
    ExportDirectory {
        characteristics: read_u32(image, offset),
        time_date_stamp: read_u32(image, offset + 4),
        major_version: read_u16(image, offset + 8),
        minor_version: read_u16(image, offset + 10),
        name: read_u32(image, offset + 12),
        base: read_u32(image, offset + 16),
        number_of_functions: read_u32(image, offset + 20),
        number_of_names: read_u32(image, offset + 24),
        address_of_functions: read_u32(image, offset + 28),
        address_of_names: read_u32(image, offset + 32),
        address_of_name_ordinals: read_u32(image, offset + 36),
    }
}

/// The export table: the directory, and the three arrays that it points to.
///
/// The address table holds, for each exported function, its offset from the
/// start of the image. The name table holds the offsets of the exported
/// names, and the ordinal table holds, for the name at the same position, the
/// index of its function in the address table.
#[derive(Clone, Debug, PartialEq, Eq)]
pub struct ExportTable {
    pub export_directory: ExportDirectory,
    pub address_table: Vec<u32>,
    pub name_table: Vec<u32>,
    pub ordinal_table: Vec<u16>,
    /// Offset of the directory from the start of the image.
    pub start_address: usize,
    /// Size of the table, as the data directory gives it.
    pub size: u32,
}

/// What an [`ExportTable`] holds, with its arrays as sequences.
pub struct ExportTableView {
    pub export_directory: ExportDirectory,
    pub address_table: Seq<u32>,
    pub name_table: Seq<u32>,
    pub ordinal_table: Seq<u16>,
    pub start_address: usize,
    pub size: u32,
}

impl View for ExportTable {
    type V = ExportTableView;

    open spec fn view(&self) -> ExportTableView {
        ExportTableView {
            export_directory: self.export_directory,
            address_table: self.address_table@,
            name_table: self.name_table@,
            ordinal_table: self.ordinal_table@,
            start_address: self.start_address,
            size: self.size,
        }
    }
}

impl ExportTableView {
    /// Whether the arrays have the lengths that the directory gives: the
    /// name table and the ordinal table are of one length.
    pub open spec fn well_formed(self) -> bool {
        &&& self.address_table.len() == self.export_directory.number_of_functions
        &&& self.name_table.len() == self.export_directory.number_of_names
        &&& self.ordinal_table.len() == self.export_directory.number_of_names
    }

    /// Number of positions that both the name table and the ordinal table
    /// have.
    pub open spec fn names_len(self) -> nat {
        if self.name_table.len() <= self.ordinal_table.len() {
            self.name_table.len()
        } else {
            self.ordinal_table.len()
        }
    }

    /// The name table and the ordinal table, paired position by position.
    pub open spec fn name_ord_pairs(self) -> Seq<(u32, u16)> {
        Seq::new(self.names_len(), |i: int| (self.name_table[i], self.ordinal_table[i]))
    }

    /// Whether the entry at position `i` can be resolved against `image`: its
    /// ordinal is an index of the address table, and its name ends inside
    /// the image.
    pub open spec fn resolves(self, image: Seq<u8>, i: int) -> bool {
        &&& self.ordinal_table[i] < self.address_table.len()
        &&& has_c_string_at(image, self.name_table[i] as int)
    }

    /// Whether `name` and `address` are those of the entry at position `i`:
    /// the C string at the offset that the name table gives, and the slot of
    /// the address table that the ordinal table selects.
    pub open spec fn resolves_to(
        self,
        image: Seq<u8>,
        i: int,
        name: Seq<u8>,
        address: usize,
    ) -> bool {
        &&& is_c_string_at(image, self.name_table[i] as int, name)
        &&& address == self.address_table[self.ordinal_table[i] as int]
    }

    /// Whether every entry can be resolved against `image`.
    pub open spec fn all_resolve(self, image: Seq<u8>) -> bool {
        forall|i: int| 0 <= i < self.names_len() ==> self.resolves(image, i)
    }
}

/// Whether an export table starts at `rva`: the directory and the three
/// arrays that it points to lie inside the image.
pub open spec fn has_export_table_at(image: Seq<u8>, rva: int) -> bool {
    let directory = export_directory_at(image, rva);
    &&& fits(image.len(), rva, EXPORT_DIRECTORY_SIZE as int, 1)
    &&& fits(
        image.len(),
        directory.address_of_functions as int,
        4,
        directory.number_of_functions as int,
    )
    &&& fits(image.len(), directory.address_of_names as int, 4, directory.number_of_names as int)
    &&& fits(
        image.len(),
        directory.address_of_name_ordinals as int,
        2,
        directory.number_of_names as int,
    )
}

/// The export table that starts at `rva`.
pub open spec fn export_table_at(image: Seq<u8>, rva: usize, size: u32) -> ExportTableView {
    let directory = export_directory_at(image, rva as int);
    ExportTableView {
        export_directory: directory,
        address_table: u32_array_at(
            image,
            directory.address_of_functions as int,
            directory.number_of_functions as nat,
        ),
        name_table: u32_array_at(
            image,
            directory.address_of_names as int,
            directory.number_of_names as nat,
        ),
        ordinal_table: u16_array_at(
            image,
            directory.address_of_name_ordinals as int,
            directory.number_of_names as nat,
        ),
        start_address: rva,
        size,
    }
}

impl ExportTable {
    /// What [`ExportTable::parse`] returns.
    pub open spec fn spec_parse(image: Seq<u8>, rva: usize, size: u32) -> Result<
        ExportTableView,
        Error,
    > {
        if has_export_table_at(image, rva as int) {
            Ok(export_table_at(image, rva, size))
        } else {
            Err(Error::InvalidHeaders)
        }
    }

    /// Reads the export table whose directory is `rva` bytes into the image.
    ///
    /// Each array is found at the offset that the directory gives for it,
    /// counted from the start of the image. Fails with
    /// [`Error::InvalidHeaders`] if the directory or one of the arrays
    /// reaches outside the image.
    pub fn parse(image: &[u8], rva: usize, size: u32) -> (result: Result<ExportTable, Error>)
        ensures
            match result {
                Ok(table) => ExportTable::spec_parse(image@, rva, size) == Ok::<
                    ExportTableView,
                    Error,
                >(table@),
                Err(error) => ExportTable::spec_parse(image@, rva, size) == Err::<
                    ExportTableView,
                    Error,
                >(error),
            },
    {
        let len: usize = image.len();
        if !array_fits(len, rva, EXPORT_DIRECTORY_SIZE, 1) {
            return Err(Error::InvalidHeaders);
        }
        let directory = read_export_directory(image, rva);
        let functions: usize = directory.number_of_functions as usize;
        let names: usize = directory.number_of_names as usize;
        let functions_offset: usize = directory.address_of_functions as usize;
        let names_offset: usize = directory.address_of_names as usize;
        let ordinals_offset: usize = directory.address_of_name_ordinals as usize;
        if !array_fits(len, functions_offset, 4, functions) {
            return Err(Error::InvalidHeaders);
        }
        if !array_fits(len, names_offset, 4, names) {
            return Err(Error::InvalidHeaders);
        }
        if !array_fits(len, ordinals_offset, 2, names) {
            return Err(Error::InvalidHeaders);
        }
        Ok(
            ExportTable {
                export_directory: directory,
                address_table: read_u32_array(image, functions_offset, functions),
                name_table: read_u32_array(image, names_offset, names),
                ordinal_table: read_u16_array(image, ordinals_offset, names),
                start_address: rva,
                size,
            },
        )
    }

    /// The exported names and their ordinals, in table order: the offset of
    /// each name from the start of the image, and the index of its function
    /// in the address table.
    pub fn iter_name_ord(&self) -> (pairs: Vec<(u32, u16)>)
        ensures
            pairs@ == self@.name_ord_pairs(),
    {
        let count: usize = if self.name_table.len() <= self.ordinal_table.len() {
            self.name_table.len()
        } else {
            self.ordinal_table.len()
        };
        let mut pairs: Vec<(u32, u16)> = Vec::new();
        let mut i: usize = 0;
        while i < count
            invariant
                i <= count,
                count == self@.names_len(),
                pairs@.len() == i,
                forall|k: int|
                    0 <= k < i ==> pairs@[k] == (self.name_table@[k], self.ordinal_table@[k]),
            decreases count - i,
        {
            pairs.push((self.name_table[i], self.ordinal_table[i]));
            i += 1;
        }
        assert(pairs@ =~= self@.name_ord_pairs());
        pairs
    }

    /// The exported names and the addresses of their functions, in table
    /// order. A name is the C string at the offset that the name table
    /// gives, without its terminator. An address is the offset of the
    /// function from the start of the image: the slot of the address table
    /// that the ordinal selects.
    ///
    /// Fails with [`Error::InvalidHeaders`] if an ordinal is not an index of
    /// the address table, or a name does not end inside the image.
    pub fn iter_string_addr(&self, image: &[u8]) -> (result: Result<
        Vec<(Vec<u8>, usize)>,
        Error,
    >)
        ensures
            match result {
                Ok(entries) => {
                    &&& self@.all_resolve(image@)
                    &&& entries@.len() == self@.names_len()
                    &&& forall|i: int|
                        0 <= i < entries@.len() ==> self@.resolves_to(
                            image@,
                            i,
                            (#[trigger] entries@[i]).0@,
                            entries@[i].1,
                        )
                },
                Err(error) => error == Error::InvalidHeaders && !self@.all_resolve(image@),
            },
    {
        let count: usize = if self.name_table.len() <= self.ordinal_table.len() {
            self.name_table.len()
        } else {
            self.ordinal_table.len()
        };
        let mut entries: Vec<(Vec<u8>, usize)> = Vec::new();
        let mut i: usize = 0;
        while i < count
            invariant
                i <= count,
                count == self@.names_len(),
                entries@.len() == i,
                forall|k: int| 0 <= k < i ==> self@.resolves(image@, k),
                forall|k: int|
                    0 <= k < i ==> self@.resolves_to(
                        image@,
                        k,
                        (#[trigger] entries@[k]).0@,
                        entries@[k].1,
                    ),
            decreases count - i,
        {
            let name_rva: u32 = self.name_table[i];
            let ordinal: usize = self.ordinal_table[i] as usize;
            if ordinal >= self.address_table.len() {
                assert(!self@.resolves(image@, i as int));
                return Err(Error::InvalidHeaders);
            }
            let name = match read_c_string(image, name_rva as usize) {
                Some(name) => name,
                None => {
                    assert(!self@.resolves(image@, i as int));
                    return Err(Error::InvalidHeaders);
                },
            };
            let address: usize = self.address_table[ordinal] as usize;
            assert(self@.resolves(image@, i as int)) by {
                assert(image@[name_rva as int + name@.len()] == 0);
            }
            entries.push((name, address));
            i += 1;
        }
        Ok(entries)
    }
}

/// A table that is read from an image has arrays of the lengths that its
/// directory gives.
pub proof fn lemma_parsed_table_is_well_formed(image: Seq<u8>, rva: usize, size: u32)
    requires
        has_export_table_at(image, rva as int),
    ensures
        ExportTable::spec_parse(image, rva, size) matches Ok(table) && table.well_formed(),
{
}

/// A table with `N` names and as many ordinals yields exactly `N` pairs, in
/// table order, and the entry at a position resolves to the slot of the
/// address table that the ordinal at that position selects.
pub proof fn lemma_pairs_in_table_order(table: ExportTableView, image: Seq<u8>)
    requires
        table.well_formed(),
    ensures
        table.name_ord_pairs().len() == table.export_directory.number_of_names,
        forall|i: int|
            0 <= i < table.export_directory.number_of_names ==> #[trigger] table.name_ord_pairs()[i]
                == (table.name_table[i], table.ordinal_table[i]),
        forall|i: int, name: Seq<u8>, address: usize| #[trigger]
            table.resolves_to(image, i, name, address) ==> address
                == table.address_table[table.ordinal_table[i] as int],
{
}

} // verus!
