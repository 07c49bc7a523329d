//! The headers of an image and the way from them to its tables.

use crate::bytes::{
    holds_at, lemma_u16_at_encoded, lemma_u32_at_encoded, lemma_u64_at_encoded, read_u16, u16_at,
    u16_bytes, u32_at, u32_bytes, u64_bytes,
};
use crate::debug::{DebugDirectory, DebugTable};
use crate::error::Error;
use crate::export::{ExportTable, ExportTableView};
use crate::format::{
    Format, IMAGE_DIRECTORY_ENTRY_DEBUG, IMAGE_DIRECTORY_ENTRY_EXPORT,
    IMAGE_DIRECTORY_ENTRY_IMPORT, IMAGE_DIRECTORY_ENTRY_TLS, IMAGE_DOS_SIGNATURE,
    IMAGE_NT_SIGNATURE, MAX_NT_HEADERS_OFFSET,
};
use crate::import::{ImportDescriptor, ImportTable};
use crate::tls::TlsDir;
use crate::records::{
    data_directories_at, dos_header_at, nt_headers_at, read_data_directories, read_dos_header,
    read_nt_headers, read_section_headers, section_headers_at, DataDirectory, DosHeader,
    NtHeaders, SectionHeader, DATA_DIRECTORY_SIZE, DOS_HEADER_SIZE, SECTION_HEADER_SIZE,
};
use vstd::prelude::*;

verus! {

/// The headers of an image: DOS header, NT headers, the data directory array
/// and the section header array.
#[derive(Clone, Debug, PartialEq, Eq)]
pub struct PeHeaders {
    pub dos_header: DosHeader,
    pub nt_header: NtHeaders,
    pub data_directories: Vec<DataDirectory>,
    pub section_headers: Vec<SectionHeader>,
}

/// What a [`PeHeaders`] holds, with its arrays as sequences.
pub struct PeHeadersView {
    pub dos_header: DosHeader,
    pub nt_header: NtHeaders,
    pub data_directories: Seq<DataDirectory>,
    pub section_headers: Seq<SectionHeader>,
}

impl View for PeHeaders {
    type V = PeHeadersView;

    open spec fn view(&self) -> PeHeadersView {
        PeHeadersView {
            dos_header: self.dos_header,
            nt_header: self.nt_header,
            data_directories: self.data_directories@,
            section_headers: self.section_headers@,
        }
    }
}

impl PeHeadersView {
    /// Whether the data directory array has an entry at `index` that is not
    /// empty.
    pub open spec fn has_directory(self, index: int) -> bool {
        0 <= index < self.data_directories.len() && self.data_directories[index].size != 0
    }

    /// What [`PeHeaders::export_table_mem`] returns.
    pub open spec fn export_table(self, image: Seq<u8>) -> Result<ExportTableView, Error> {
        let entry = self.data_directories[IMAGE_DIRECTORY_ENTRY_EXPORT as int];
        if self.has_directory(IMAGE_DIRECTORY_ENTRY_EXPORT as int) {
            ExportTable::spec_parse(image, entry.virtual_address as usize, entry.size)
        } else {
            Err(Error::MissingExportTable)
        }
    }

    /// What [`PeHeaders::import_table_mem`] returns.
    pub open spec fn import_table(self, image: Seq<u8>) -> Result<Seq<ImportDescriptor>, Error> {
        let entry = self.data_directories[IMAGE_DIRECTORY_ENTRY_IMPORT as int];
        if self.has_directory(IMAGE_DIRECTORY_ENTRY_IMPORT as int) {
            ImportTable::spec_parse(image, entry.virtual_address as usize, entry.size as usize)
        } else {
            Err(Error::MissingImportTable)
        }
    }

    /// What [`PeHeaders::debug_table_mem`] returns.
    pub open spec fn debug_table(self, image: Seq<u8>) -> Result<Seq<DebugDirectory>, Error> {
        let entry = self.data_directories[IMAGE_DIRECTORY_ENTRY_DEBUG as int];
        if self.has_directory(IMAGE_DIRECTORY_ENTRY_DEBUG as int) {
            DebugTable::spec_parse(image, entry.virtual_address as usize, entry.size as usize)
        } else {
            Err(Error::MissingDebugTable)
        }
    }

    /// What [`PeHeaders::tls_table_mem`] returns.
    pub open spec fn tls_table(self, image: Seq<u8>) -> Result<Option<TlsDir>, Error> {
        let entry = self.data_directories[IMAGE_DIRECTORY_ENTRY_TLS as int];
        if self.data_directories.len() <= IMAGE_DIRECTORY_ENTRY_TLS {
            Err(Error::MissingTlsTable)
        } else if entry.virtual_address == 0 {
            Ok(None)
        } else {
            match Format::of_magic(self.nt_header.optional_header.magic) {
                Some(format) => match TlsDir::spec_parse(
                    image,
                    entry.virtual_address as usize,
                    format,
                ) {
                    Ok(directory) => Ok(Some(directory)),
                    Err(error) => Err(error),
                },
                None => Err(Error::InvalidHeaders),
            }
        }
    }
}

/// Offset of the NT headers, as the DOS header gives it.
pub open spec fn nt_headers_offset(image: Seq<u8>) -> int {
    u32_at(image, 60) as int
}

/// The magic of the optional header.
pub open spec fn optional_magic(image: Seq<u8>) -> u16 {
    u16_at(image, nt_headers_offset(image) + 24)
}

/// Offset of the data directory array: it follows the NT headers.
pub open spec fn data_directories_offset(image: Seq<u8>, format: Format) -> int {
    nt_headers_offset(image) + format.nt_headers_size()
}

/// Length of the data directory array, as the optional header gives it.
pub open spec fn data_directories_count(image: Seq<u8>, format: Format) -> nat {
    nt_headers_at(
        image,
        nt_headers_offset(image),
        format,
    ).optional_header.number_of_rva_and_sizes as nat
}

/// Offset of the section header array: it follows the data directory array.
pub open spec fn section_headers_offset(image: Seq<u8>, format: Format) -> int {
    data_directories_offset(image, format) + DATA_DIRECTORY_SIZE * data_directories_count(
        image,
        format,
    )
}

/// Length of the section header array, as the file header gives it.
pub open spec fn section_headers_count(image: Seq<u8>) -> nat {
    u16_at(image, nt_headers_offset(image) + 6) as nat
}

/// Whether an image has headers that can be read: the signatures and the
/// magic are right, the NT headers are not implausibly far away, and the
/// headers and both arrays lie inside the image.
pub open spec fn has_valid_headers(image: Seq<u8>) -> bool {
    &&& DOS_HEADER_SIZE <= image.len()
    &&& u16_at(image, 0) == IMAGE_DOS_SIGNATURE
    &&& u32_at(image, 60) <= MAX_NT_HEADERS_OFFSET
    &&& Format::of_magic(optional_magic(image)) matches Some(format)
    &&& nt_headers_offset(image) + format.nt_headers_size() <= image.len()
    &&& u32_at(image, nt_headers_offset(image)) == IMAGE_NT_SIGNATURE
    &&& section_headers_offset(image, format) + SECTION_HEADER_SIZE * section_headers_count(image)
        <= image.len()
}

/// The headers of an image that has valid ones.
pub open spec fn headers_of(image: Seq<u8>) -> PeHeadersView {
    let format = Format::of_magic(optional_magic(image)).unwrap();
    PeHeadersView {
        dos_header: dos_header_at(image, 0),
        nt_header: nt_headers_at(image, nt_headers_offset(image), format),
        data_directories: data_directories_at(
            image,
            data_directories_offset(image, format),
            data_directories_count(image, format),
        ),
        section_headers: section_headers_at(
            image,
            section_headers_offset(image, format),
            section_headers_count(image),
        ),
    }
}

impl PeHeaders {
    /// What [`PeHeaders::parse`] returns for an image.
    pub open spec fn spec_parse(image: Seq<u8>) -> Result<PeHeadersView, Error> {
        if has_valid_headers(image) {
            Ok(headers_of(image))
        } else {
            Err(Error::InvalidHeaders)
        }
    }

    /// Reads the headers of the image that `image` covers. The magic of the
    /// optional header decides which of the two layouts is read.
    ///
    /// Fails with [`Error::InvalidHeaders`] unless the DOS signature is `MZ`,
    /// the NT headers start at most 1024 bytes into the image and carry the
    /// signature `PE\0\0`, the optional-header magic names one of the two
    /// variants, and the headers and both arrays lie inside the image.
    pub fn parse(image: &[u8]) -> (result: Result<PeHeaders, Error>)
        ensures
            match result {
                Ok(headers) => PeHeaders::spec_parse(image@) == Ok::<PeHeadersView, Error>(
                    headers@,
                ),
                Err(error) => PeHeaders::spec_parse(image@) == Err::<PeHeadersView, Error>(error),
            },
    {
        let len: usize = image.len();
        if len < DOS_HEADER_SIZE {
            return Err(Error::InvalidHeaders);
        }
        let dos_header = read_dos_header(image, 0);
        if dos_header.e_magic != IMAGE_DOS_SIGNATURE {
            return Err(Error::InvalidHeaders);
        }
        if dos_header.e_lfanew > MAX_NT_HEADERS_OFFSET {
            return Err(Error::InvalidHeaders);
        }
        let nt_offset: usize = dos_header.e_lfanew as usize;
        if nt_offset > len || len - nt_offset < 26 {
            return Err(Error::InvalidHeaders);
        }
        let format = match Format::from_magic(read_u16(image, nt_offset + 24)) {
            Some(format) => format,
            None => { return Err(Error::InvalidHeaders); },
        };
        if len - nt_offset < format.nt_headers_size() {
            return Err(Error::InvalidHeaders);
        }
        let nt_header = read_nt_headers(image, nt_offset, format);
        if nt_header.signature != IMAGE_NT_SIGNATURE {
            return Err(Error::InvalidHeaders);
        }
        let directories_offset: usize = nt_offset + format.nt_headers_size();
        let directories_count: usize = nt_header.optional_header.number_of_rva_and_sizes as usize;
        if directories_count > (len - directories_offset) / DATA_DIRECTORY_SIZE {
            return Err(Error::InvalidHeaders);
        }
        let sections_offset: usize = directories_offset + DATA_DIRECTORY_SIZE * directories_count;
        let sections_count: usize = nt_header.file_header.number_of_sections as usize;
        if sections_count > (len - sections_offset) / SECTION_HEADER_SIZE {
            return Err(Error::InvalidHeaders);
        }
        let data_directories = read_data_directories(image, directories_offset, directories_count);
        let section_headers = read_section_headers(image, sections_offset, sections_count);
        Ok(PeHeaders { dos_header, nt_header, data_directories, section_headers })
    }

    /// What [`PeHeaders::parse_as`] returns for an image.
    pub open spec fn spec_parse_as(image: Seq<u8>, format: Format) -> Result<
        PeHeadersView,
        Error,
    > {
        if has_valid_headers(image) && optional_magic(image) == format.magic() {
            Ok(headers_of(image))
        } else {
            Err(Error::InvalidHeaders)
        }
    }

    /// Reads the headers of an image that is expected to be of the given
    /// variant.
    ///
    /// Fails with [`Error::InvalidHeaders`] where [`PeHeaders::parse`] does,
    /// and if the optional-header magic is not that of `format`.
    pub fn parse_as(image: &[u8], format: Format) -> (result: Result<PeHeaders, Error>)
        ensures
            match result {
                Ok(headers) => PeHeaders::spec_parse_as(image@, format) == Ok::<
                    PeHeadersView,
                    Error,
                >(headers@),
                Err(error) => PeHeaders::spec_parse_as(image@, format) == Err::<
                    PeHeadersView,
                    Error,
                >(error),
            },
    {
        match PeHeaders::parse(image) {
            Ok(headers) => {
                if headers.nt_header.optional_header.magic == format.magic() {
                    Ok(headers)
                } else {
                    Err(Error::InvalidHeaders)
                }
            },
            Err(error) => Err(error),
        }
    }

    /// The entry of the data directory array at `index`, unless the array is
    /// too short to have one or the entry is empty.
    fn directory(&self, index: usize) -> (entry: Option<DataDirectory>)
        ensures
            match entry {
                Some(entry) => self@.has_directory(index as int) && entry
                    == self@.data_directories[index as int],
                None => !self@.has_directory(index as int),
            },
    {
        if index >= self.data_directories.len() {
            return None;
        }
        let entry = self.data_directories[index];
        if entry.size == 0 {
            None
        } else {
            Some(entry)
        }
    }

    /// Reads the export table of the image that these headers were read
    /// from.
    ///
    /// Fails with [`Error::MissingExportTable`] if the data directory array
    /// has no export entry or the entry is empty, and with
    /// [`Error::InvalidHeaders`] if the table reaches outside the image.
    pub fn export_table_mem(&self, image: &[u8]) -> (result: Result<ExportTable, Error>)
        ensures
            match result {
                Ok(table) => self@.export_table(image@) == Ok::<ExportTableView, Error>(table@),
                Err(error) => self@.export_table(image@) == Err::<ExportTableView, Error>(error),
            },
    {
        match self.directory(IMAGE_DIRECTORY_ENTRY_EXPORT) {
            Some(entry) => ExportTable::parse(image, entry.virtual_address as usize, entry.size),
            None => Err(Error::MissingExportTable),
        }
    }

    /// Reads the import table of the image that these headers were read
    /// from.
    ///
    /// Fails with [`Error::MissingImportTable`] if the data directory array
    /// has no import entry or the entry is empty, and with
    /// [`Error::InvalidHeaders`] if the entry is too small for a terminator
    /// or the table reaches outside the image.
    pub fn import_table_mem(&self, image: &[u8]) -> (result: Result<ImportTable, Error>)
        ensures
            match result {
                Ok(table) => self@.import_table(image@) == Ok::<Seq<ImportDescriptor>, Error>(
                    table@,
                ),
                Err(error) => self@.import_table(image@) == Err::<Seq<ImportDescriptor>, Error>(
                    error,
                ),
            },
    {
        match self.directory(IMAGE_DIRECTORY_ENTRY_IMPORT) {
            Some(entry) => ImportTable::parse(
                image,
                entry.virtual_address as usize,
                entry.size as usize,
            ),
            None => Err(Error::MissingImportTable),
        }
    }

    /// Reads the debug table of the image that these headers were read from.
    ///
    /// Fails with [`Error::MissingDebugTable`] if the data directory array
    /// has no debug entry or the entry is empty, and with
    /// [`Error::InvalidHeaders`] if the entry is too small for a terminator
    /// or the table reaches outside the image.
    pub fn debug_table_mem(&self, image: &[u8]) -> (result: Result<DebugTable, Error>)
        ensures
            match result {
                Ok(table) => self@.debug_table(image@) == Ok::<Seq<DebugDirectory>, Error>(
                    table@,
                ),
                Err(error) => self@.debug_table(image@) == Err::<Seq<DebugDirectory>, Error>(
                    error,
                ),
            },
    {
        match self.directory(IMAGE_DIRECTORY_ENTRY_DEBUG) {
            Some(entry) => DebugTable::parse(
                image,
                entry.virtual_address as usize,
                entry.size as usize,
            ),
            None => Err(Error::MissingDebugTable),
        }
    }

    /// Reads the TLS directory of the image that these headers were read
    /// from, if it has one.
    ///
    /// An entry whose address is zero means that the image has no TLS
    /// directory: that is `Ok(None)`, no error. Fails with
    /// [`Error::MissingTlsTable`] if the data directory array is too short
    /// to have a TLS entry, and with [`Error::InvalidHeaders`] if the
    /// directory reaches outside the image or the optional-header magic
    /// names no variant.
    pub fn tls_table_mem(&self, image: &[u8]) -> (result: Result<Option<TlsDir>, Error>)
        ensures
            result == self@.tls_table(image@),
    {
        if self.data_directories.len() <= IMAGE_DIRECTORY_ENTRY_TLS {
            return Err(Error::MissingTlsTable);
        }
        let entry = self.data_directories[IMAGE_DIRECTORY_ENTRY_TLS];
        if entry.virtual_address == 0 {
            return Ok(None);
        }
        let format = match Format::from_magic(self.nt_header.optional_header.magic) {
            Some(format) => format,
            None => { return Err(Error::InvalidHeaders); },
        };
        match TlsDir::parse(image, entry.virtual_address as usize, format) {
            Ok(directory) => Ok(Some(directory)),
            Err(error) => Err(error),
        }
    }
}

/// An image that does not start with the bytes `MZ` has no valid headers.
pub proof fn lemma_parse_rejects_bad_dos_signature(image: Seq<u8>)
    requires
        image.len() < 2 || image[0] != 0x4D || image[1] != 0x5A,
    ensures
        PeHeaders::spec_parse(image) == Err::<PeHeadersView, Error>(Error::InvalidHeaders),
{
}

/// An image of one variant is not read as one of the other.
pub proof fn lemma_parse_as_rejects_other_variant(image: Seq<u8>, format: Format)
    requires
        optional_magic(image) != format.magic(),
    ensures
        PeHeaders::spec_parse_as(image, format) == Err::<PeHeadersView, Error>(
            Error::InvalidHeaders,
        ),
{
}

/// An image whose DOS header places the NT headers more than 1024 bytes into
/// the image has no valid headers, whatever lies at that offset.
pub proof fn lemma_parse_rejects_far_nt_headers(image: Seq<u8>)
    requires
        u32_at(image, 60) > MAX_NT_HEADERS_OFFSET,
    ensures
        PeHeaders::spec_parse(image) == Err::<PeHeadersView, Error>(Error::InvalidHeaders),
{
}

/// The headers that are read from an image carry both signatures and one of
/// the two magics, and their arrays have the lengths that the headers give.
pub proof fn lemma_parsed_headers_are_consistent(image: Seq<u8>)
    requires
        has_valid_headers(image),
    ensures
        PeHeaders::spec_parse(image) matches Ok(headers) && {
            &&& headers.dos_header.e_magic == IMAGE_DOS_SIGNATURE
            &&& headers.dos_header.e_lfanew <= MAX_NT_HEADERS_OFFSET
            &&& headers.nt_header.signature == IMAGE_NT_SIGNATURE
            &&& Format::of_magic(headers.nt_header.optional_header.magic) is Some
            &&& headers.data_directories.len()
                == headers.nt_header.optional_header.number_of_rva_and_sizes
            &&& headers.section_headers.len() == headers.nt_header.file_header.number_of_sections
        },
{
}

/// The headers that are read from an image carry the values that are written
/// at the places of their fields: here the offset of the NT headers, the
/// machine, the number of sections, the magic, the entry point, the image
/// base and the number of directory entries.
pub proof fn lemma_parse_returns_written_values(
    image: Seq<u8>,
    format: Format,
    nt_offset: u32,
    machine: u16,
    sections: u16,
    entry_point: u32,
    image_base: u64,
    directories: u32,
)
    requires
        has_valid_headers(image),
        holds_at(image, 60, u32_bytes(nt_offset)),
        holds_at(image, nt_offset + 4, u16_bytes(machine)),
        holds_at(image, nt_offset + 6, u16_bytes(sections)),
        holds_at(image, nt_offset + 24, u16_bytes(format.magic())),
        holds_at(image, nt_offset + 40, u32_bytes(entry_point)),
        match format {
            Format::Pe32 => image_base <= u32::MAX && holds_at(
                image,
                nt_offset + 52,
                u32_bytes(image_base as u32),
            ),
            Format::Pe32Plus => holds_at(image, nt_offset + 48, u64_bytes(image_base)),
        },
        holds_at(image, nt_offset + format.nt_headers_size() - 4, u32_bytes(directories)),
    ensures
        PeHeaders::spec_parse(image) matches Ok(headers) && {
            &&& headers.dos_header.e_lfanew == nt_offset
            &&& headers.nt_header.file_header.machine == machine
            &&& headers.nt_header.file_header.number_of_sections == sections
            &&& headers.nt_header.optional_header.magic == format.magic()
            &&& headers.nt_header.optional_header.address_of_entry_point == entry_point
            &&& headers.nt_header.optional_header.image_base == image_base
            &&& headers.nt_header.optional_header.number_of_rva_and_sizes == directories
            &&& headers.data_directories.len() == directories
            &&& headers.section_headers.len() == sections
        },
{
    let nt: int = nt_offset as int;
    lemma_u32_at_encoded(image, 60, nt_offset);
    lemma_u16_at_encoded(image, nt + 4, machine);
    lemma_u16_at_encoded(image, nt + 6, sections);
    lemma_u16_at_encoded(image, nt + 24, format.magic());
    lemma_u32_at_encoded(image, nt + 40, entry_point);
    lemma_u32_at_encoded(image, nt + format.nt_headers_size() - 4, directories);
    match format {
        Format::Pe32 => lemma_u32_at_encoded(image, nt + 52, image_base as u32),
        Format::Pe32Plus => lemma_u64_at_encoded(image, nt + 48, image_base),
    }
}

/// A TLS entry whose address is zero means that there is no TLS directory,
/// which is no error.
pub proof fn lemma_tls_absent_is_no_error(headers: PeHeadersView, image: Seq<u8>)
    requires
        headers.data_directories.len() > IMAGE_DIRECTORY_ENTRY_TLS,
        headers.data_directories[IMAGE_DIRECTORY_ENTRY_TLS as int].virtual_address == 0,
    ensures
        headers.tls_table(image) == Ok::<Option<TlsDir>, Error>(None),
{
}

} // verus!
