//! The records of the headers, and where their fields lie.

use crate::bytes::{read_u16, read_u32, read_u64, read_u8, u16_at, u32_at, u64_at};
use crate::format::Format;
use vstd::prelude::*;

verus! {

/// Size in bytes of the DOS header.
pub const DOS_HEADER_SIZE: usize = 64;

/// Size in bytes of the file header.
pub const FILE_HEADER_SIZE: usize = 20;

/// Size in bytes of one entry of the data directory array.
pub const DATA_DIRECTORY_SIZE: usize = 8;

/// Size in bytes of one section header.
pub const SECTION_HEADER_SIZE: usize = 40;

/// The DOS header at the start of every image. Its reserved words are not
/// kept.
#[derive(Clone, Copy, Debug, PartialEq, Eq)]
pub struct DosHeader {
    /// The signature, `MZ`.
    pub e_magic: u16,
    pub e_cblp: u16,
    pub e_cp: u16,
    pub e_crlc: u16,
    pub e_cparhdr: u16,
    pub e_minalloc: u16,
    pub e_maxalloc: u16,
    pub e_ss: u16,
    pub e_sp: u16,
    pub e_csum: u16,
    pub e_ip: u16,
    pub e_cs: u16,
    pub e_lfarlc: u16,
    pub e_ovno: u16,
    pub e_oemid: u16,
    pub e_oeminfo: u16,
    /// Offset of the NT headers from the start of the image.
    pub e_lfanew: u32,
}

/// The file header: what follows the signature in the NT headers.
#[derive(Clone, Copy, Debug, PartialEq, Eq)]
pub struct FileHeader {
    pub machine: u16,
    /// Length of the section header array.
    pub number_of_sections: u16,
    pub time_date_stamp: u32,
    pub pointer_to_symbol_table: u32,
    pub number_of_symbols: u32,
    pub size_of_optional_header: u16,
    pub characteristics: u16,
}

/// The optional header, without the data directory array that follows it.
/// The fields that are narrower in the 32-bit variant are widened.
#[derive(Clone, Copy, Debug, PartialEq, Eq)]
pub struct OptionalHeader {
    /// Tells the two variants apart.
    pub magic: u16,
    pub major_linker_version: u8,
    pub minor_linker_version: u8,
    pub size_of_code: u32,
    pub size_of_initialized_data: u32,
    pub size_of_uninitialized_data: u32,
    pub address_of_entry_point: u32,
    pub base_of_code: u32,
    /// Present in the 32-bit variant only.
    pub base_of_data: Option<u32>,
    /// The address at which the image prefers to be mapped.
    pub image_base: u64,
    pub section_alignment: u32,
    pub file_alignment: u32,
    pub major_operating_system_version: u16,
    pub minor_operating_system_version: u16,
    pub major_image_version: u16,
    pub minor_image_version: u16,
    pub major_subsystem_version: u16,
    pub minor_subsystem_version: u16,
    pub win32_version_value: u32,
    pub size_of_image: u32,
    pub size_of_headers: u32,
    pub check_sum: u32,
    pub subsystem: u16,
    pub dll_characteristics: u16,
    pub size_of_stack_reserve: u64,
    pub size_of_stack_commit: u64,
    pub size_of_heap_reserve: u64,
    pub size_of_heap_commit: u64,
    pub loader_flags: u32,
    /// Length of the data directory array.
    pub number_of_rva_and_sizes: u32,
}

/// The NT headers: signature, file header and optional header.
#[derive(Clone, Copy, Debug, PartialEq, Eq)]
pub struct NtHeaders {
    /// The signature, `PE\0\0`.
    pub signature: u32,
    pub file_header: FileHeader,
    pub optional_header: OptionalHeader,
}

/// One entry of the data directory array: where a table lies, as an offset
/// from the start of the image, and how large it is.
#[derive(Clone, Copy, Debug, PartialEq, Eq)]
pub struct DataDirectory {
    pub virtual_address: u32,
    pub size: u32,
}

/// One section header.
#[derive(Clone, Copy, Debug, PartialEq, Eq)]
pub struct SectionHeader {
    pub name: [u8; 8],
    pub virtual_size: u32,
    pub virtual_address: u32,
    pub size_of_raw_data: u32,
    pub pointer_to_raw_data: u32,
    pub pointer_to_relocations: u32,
    pub pointer_to_linenumbers: u32,
    pub number_of_relocations: u16,
    pub number_of_linenumbers: u16,
    pub characteristics: u32,
}

/// The DOS header whose first byte is at `offset`.
pub open spec fn dos_header_at(image: Seq<u8>, offset: int) -> DosHeader {
    DosHeader {
        e_magic: u16_at(image, offset),
        e_cblp: u16_at(image, offset + 2),
        e_cp: u16_at(image, offset + 4),
        e_crlc: u16_at(image, offset + 6),
        e_cparhdr: u16_at(image, offset + 8),
        e_minalloc: u16_at(image, offset + 10),
        e_maxalloc: u16_at(image, offset + 12),
        e_ss: u16_at(image, offset + 14),
        e_sp: u16_at(image, offset + 16),
        e_csum: u16_at(image, offset + 18),
        e_ip: u16_at(image, offset + 20),
        e_cs: u16_at(image, offset + 22),
        e_lfarlc: u16_at(image, offset + 24),
        e_ovno: u16_at(image, offset + 26),
        e_oemid: u16_at(image, offset + 36),
        e_oeminfo: u16_at(image, offset + 38),
        e_lfanew: u32_at(image, offset + 60),
    }
}

/// The file header whose first byte is at `offset`.
pub open spec fn file_header_at(image: Seq<u8>, offset: int) -> FileHeader {
    FileHeader {
        machine: u16_at(image, offset),
        number_of_sections: u16_at(image, offset + 2),
        time_date_stamp: u32_at(image, offset + 4),
        pointer_to_symbol_table: u32_at(image, offset + 8),
        number_of_symbols: u32_at(image, offset + 12),
        size_of_optional_header: u16_at(image, offset + 16),
        characteristics: u16_at(image, offset + 18),
    }
}

/// The optional header of the 32-bit variant whose first byte is at `offset`.
pub open spec fn optional_header32_at(image: Seq<u8>, offset: int) -> OptionalHeader {
    OptionalHeader {
        magic: u16_at(image, offset),
        major_linker_version: image[offset + 2],
        minor_linker_version: image[offset + 3],
        size_of_code: u32_at(image, offset + 4),
        size_of_initialized_data: u32_at(image, offset + 8),
        size_of_uninitialized_data: u32_at(image, offset + 12),
        address_of_entry_point: u32_at(image, offset + 16),
        base_of_code: u32_at(image, offset + 20),
        base_of_data: Some(u32_at(image, offset + 24)),
        image_base: u32_at(image, offset + 28) as u64,
        section_alignment: u32_at(image, offset + 32),
        file_alignment: u32_at(image, offset + 36),
        major_operating_system_version: u16_at(image, offset + 40),
        minor_operating_system_version: u16_at(image, offset + 42),
        major_image_version: u16_at(image, offset + 44),
        minor_image_version: u16_at(image, offset + 46),
        major_subsystem_version: u16_at(image, offset + 48),
        minor_subsystem_version: u16_at(image, offset + 50),
        win32_version_value: u32_at(image, offset + 52),
        size_of_image: u32_at(image, offset + 56),
        size_of_headers: u32_at(image, offset + 60),
        check_sum: u32_at(image, offset + 64),
        subsystem: u16_at(image, offset + 68),
        dll_characteristics: u16_at(image, offset + 70),
        size_of_stack_reserve: u32_at(image, offset + 72) as u64,
        size_of_stack_commit: u32_at(image, offset + 76) as u64,
        size_of_heap_reserve: u32_at(image, offset + 80) as u64,
        size_of_heap_commit: u32_at(image, offset + 84) as u64,
        loader_flags: u32_at(image, offset + 88),
        number_of_rva_and_sizes: u32_at(image, offset + 92),
    }
}

/// The optional header of the 64-bit variant whose first byte is at `offset`.
pub open spec fn optional_header64_at(image: Seq<u8>, offset: int) -> OptionalHeader {
    OptionalHeader {
        magic: u16_at(image, offset),
        major_linker_version: image[offset + 2],
        minor_linker_version: image[offset + 3],
        size_of_code: u32_at(image, offset + 4),
        size_of_initialized_data: u32_at(image, offset + 8),
        size_of_uninitialized_data: u32_at(image, offset + 12),
        address_of_entry_point: u32_at(image, offset + 16),
        base_of_code: u32_at(image, offset + 20),
        base_of_data: None,
        image_base: u64_at(image, offset + 24),
        section_alignment: u32_at(image, offset + 32),
        file_alignment: u32_at(image, offset + 36),
        major_operating_system_version: u16_at(image, offset + 40),
        minor_operating_system_version: u16_at(image, offset + 42),
        major_image_version: u16_at(image, offset + 44),
        minor_image_version: u16_at(image, offset + 46),
        major_subsystem_version: u16_at(image, offset + 48),
        minor_subsystem_version: u16_at(image, offset + 50),
        win32_version_value: u32_at(image, offset + 52),
        size_of_image: u32_at(image, offset + 56),
        size_of_headers: u32_at(image, offset + 60),
        check_sum: u32_at(image, offset + 64),
        subsystem: u16_at(image, offset + 68),
        dll_characteristics: u16_at(image, offset + 70),
        size_of_stack_reserve: u64_at(image, offset + 72),
        size_of_stack_commit: u64_at(image, offset + 80),
        size_of_heap_reserve: u64_at(image, offset + 88),
        size_of_heap_commit: u64_at(image, offset + 96),
        loader_flags: u32_at(image, offset + 104),
        number_of_rva_and_sizes: u32_at(image, offset + 108),
    }
}

/// The optional header of the given variant whose first byte is at `offset`.
pub open spec fn optional_header_at(image: Seq<u8>, offset: int, format: Format) -> OptionalHeader {
    match format {
        Format::Pe32 => optional_header32_at(image, offset),
        Format::Pe32Plus => optional_header64_at(image, offset),
    }
}

/// The NT headers of the given variant whose first byte is at `offset`.
pub open spec fn nt_headers_at(image: Seq<u8>, offset: int, format: Format) -> NtHeaders {
    NtHeaders {
        signature: u32_at(image, offset),
        file_header: file_header_at(image, offset + 4),
        optional_header: optional_header_at(image, offset + 24, format),
    }
}

/// The directory entry whose first byte is at `offset`.
pub open spec fn data_directory_at(image: Seq<u8>, offset: int) -> DataDirectory {
    DataDirectory { virtual_address: u32_at(image, offset), size: u32_at(image, offset + 4) }
}

/// The section header whose first byte is at `offset`.
pub open spec fn section_header_at(image: Seq<u8>, offset: int) -> SectionHeader {
    SectionHeader {
        name: [
            image[offset],
            image[offset + 1],
            image[offset + 2],
            image[offset + 3],
            image[offset + 4],
            image[offset + 5],
            image[offset + 6],
            image[offset + 7],
        ],
        virtual_size: u32_at(image, offset + 8),
        virtual_address: u32_at(image, offset + 12),
        size_of_raw_data: u32_at(image, offset + 16),
        pointer_to_raw_data: u32_at(image, offset + 20),
        pointer_to_relocations: u32_at(image, offset + 24),
        pointer_to_linenumbers: u32_at(image, offset + 28),
        number_of_relocations: u16_at(image, offset + 32),
        number_of_linenumbers: u16_at(image, offset + 34),
        characteristics: u32_at(image, offset + 36),
    }
}

/// The array of `count` directory entries whose first byte is at `offset`.
pub open spec fn data_directories_at(image: Seq<u8>, offset: int, count: nat) -> Seq<
    DataDirectory,
> {
    Seq::new(count, |i: int| data_directory_at(image, offset + DATA_DIRECTORY_SIZE * i))
}

/// The array of `count` section headers whose first byte is at `offset`.
pub open spec fn section_headers_at(image: Seq<u8>, offset: int, count: nat) -> Seq<
    SectionHeader,
> {
    Seq::new(count, |i: int| section_header_at(image, offset + SECTION_HEADER_SIZE * i))
}

pub(crate) fn read_dos_header(image: &[u8], offset: usize) -> (header: DosHeader)
    requires
        offset + DOS_HEADER_SIZE <= image.len(),
    ensures
        header == dos_header_at(image@, offset as int),
{
    DosHeader {
        e_magic: read_u16(image, offset),
        e_cblp: read_u16(image, offset + 2),
        e_cp: read_u16(image, offset + 4),
        e_crlc: read_u16(image, offset + 6),
        e_cparhdr: read_u16(image, offset + 8),
        e_minalloc: read_u16(image, offset + 10),
        e_maxalloc: read_u16(image, offset + 12),
        e_ss: read_u16(image, offset + 14),
        e_sp: read_u16(image, offset + 16),
        e_csum: read_u16(image, offset + 18),
        e_ip: read_u16(image, offset + 20),
        e_cs: read_u16(image, offset + 22),
        e_lfarlc: read_u16(image, offset + 24),
        e_ovno: read_u16(image, offset + 26),
        e_oemid: read_u16(image, offset + 36),
        e_oeminfo: read_u16(image, offset + 38),
        e_lfanew: read_u32(image, offset + 60),
    }
}

pub(crate) fn read_file_header(image: &[u8], offset: usize) -> (header: FileHeader)
    requires
        offset + FILE_HEADER_SIZE <= image.len(),
    ensures
        header == file_header_at(image@, offset as int),
{
    FileHeader {
        machine: read_u16(image, offset),
        number_of_sections: read_u16(image, offset + 2),
        time_date_stamp: read_u32(image, offset + 4),
        pointer_to_symbol_table: read_u32(image, offset + 8),
        number_of_symbols: read_u32(image, offset + 12),
        size_of_optional_header: read_u16(image, offset + 16),
        characteristics: read_u16(image, offset + 18),
    }
}

fn read_optional_header32(image: &[u8], offset: usize) -> (header: OptionalHeader)
    requires
        offset + 96 <= image.len(),
    ensures
        header == optional_header32_at(image@, offset as int),
{
    OptionalHeader {
        magic: read_u16(image, offset),
        major_linker_version: read_u8(image, offset + 2),
        minor_linker_version: read_u8(image, offset + 3),
        size_of_code: read_u32(image, offset + 4),
        size_of_initialized_data: read_u32(image, offset + 8),
        size_of_uninitialized_data: read_u32(image, offset + 12),
        address_of_entry_point: read_u32(image, offset + 16),
        base_of_code: read_u32(image, offset + 20),
        base_of_data: Some(read_u32(image, offset + 24)),
        image_base: read_u32(image, offset + 28) as u64,
        section_alignment: read_u32(image, offset + 32),
        file_alignment: read_u32(image, offset + 36),
        major_operating_system_version: read_u16(image, offset + 40),
        minor_operating_system_version: read_u16(image, offset + 42),
        major_image_version: read_u16(image, offset + 44),
        minor_image_version: read_u16(image, offset + 46),
        major_subsystem_version: read_u16(image, offset + 48),
        minor_subsystem_version: read_u16(image, offset + 50),
        win32_version_value: read_u32(image, offset + 52),
        size_of_image: read_u32(image, offset + 56),
        size_of_headers: read_u32(image, offset + 60),
        check_sum: read_u32(image, offset + 64),
        subsystem: read_u16(image, offset + 68),
        dll_characteristics: read_u16(image, offset + 70),
        size_of_stack_reserve: read_u32(image, offset + 72) as u64,
        size_of_stack_commit: read_u32(image, offset + 76) as u64,
        size_of_heap_reserve: read_u32(image, offset + 80) as u64,
        size_of_heap_commit: read_u32(image, offset + 84) as u64,
        loader_flags: read_u32(image, offset + 88),
        number_of_rva_and_sizes: read_u32(image, offset + 92),
    }
}

fn read_optional_header64(image: &[u8], offset: usize) -> (header: OptionalHeader)
    requires
        offset + 112 <= image.len(),
    ensures
        header == optional_header64_at(image@, offset as int),
{
    OptionalHeader {
        magic: read_u16(image, offset),
        major_linker_version: read_u8(image, offset + 2),
        minor_linker_version: read_u8(image, offset + 3),
        size_of_code: read_u32(image, offset + 4),
        size_of_initialized_data: read_u32(image, offset + 8),
        size_of_uninitialized_data: read_u32(image, offset + 12),
        address_of_entry_point: read_u32(image, offset + 16),
        base_of_code: read_u32(image, offset + 20),
        base_of_data: None,
        image_base: read_u64(image, offset + 24),
        section_alignment: read_u32(image, offset + 32),
        file_alignment: read_u32(image, offset + 36),
        major_operating_system_version: read_u16(image, offset + 40),
        minor_operating_system_version: read_u16(image, offset + 42),
        major_image_version: read_u16(image, offset + 44),
        minor_image_version: read_u16(image, offset + 46),
        major_subsystem_version: read_u16(image, offset + 48),
        minor_subsystem_version: read_u16(image, offset + 50),
        win32_version_value: read_u32(image, offset + 52),
        size_of_image: read_u32(image, offset + 56),
        size_of_headers: read_u32(image, offset + 60),
        check_sum: read_u32(image, offset + 64),
        subsystem: read_u16(image, offset + 68),
        dll_characteristics: read_u16(image, offset + 70),
        size_of_stack_reserve: read_u64(image, offset + 72),
        size_of_stack_commit: read_u64(image, offset + 80),
        size_of_heap_reserve: read_u64(image, offset + 88),
        size_of_heap_commit: read_u64(image, offset + 96),
        loader_flags: read_u32(image, offset + 104),
        number_of_rva_and_sizes: read_u32(image, offset + 108),
    }
}

pub(crate) fn read_nt_headers(image: &[u8], offset: usize, format: Format) -> (headers: NtHeaders)
    requires
        offset + format.nt_headers_size() <= image.len(),
    ensures
        headers == nt_headers_at(image@, offset as int, format),
{
    let optional_header = match format {
        Format::Pe32 => read_optional_header32(image, offset + 24),
        Format::Pe32Plus => read_optional_header64(image, offset + 24),
    };
    NtHeaders {
        signature: read_u32(image, offset),
        file_header: read_file_header(image, offset + 4),
        optional_header,
    }
}

pub(crate) fn read_data_directory(image: &[u8], offset: usize) -> (entry: DataDirectory)
    requires
        offset + DATA_DIRECTORY_SIZE <= image.len(),
    ensures
        entry == data_directory_at(image@, offset as int),
{
    DataDirectory { virtual_address: read_u32(image, offset), size: read_u32(image, offset + 4) }
}

pub(crate) fn read_section_header(image: &[u8], offset: usize) -> (header: SectionHeader)
    requires
        offset + SECTION_HEADER_SIZE <= image.len(),
    ensures
        header == section_header_at(image@, offset as int),
{
    SectionHeader {
        name: [
            read_u8(image, offset),
            read_u8(image, offset + 1),
            read_u8(image, offset + 2),
            read_u8(image, offset + 3),
            read_u8(image, offset + 4),
            read_u8(image, offset + 5),
            read_u8(image, offset + 6),
            read_u8(image, offset + 7),
        ],
        virtual_size: read_u32(image, offset + 8),
        virtual_address: read_u32(image, offset + 12),
        size_of_raw_data: read_u32(image, offset + 16),
        pointer_to_raw_data: read_u32(image, offset + 20),
        pointer_to_relocations: read_u32(image, offset + 24),
        pointer_to_linenumbers: read_u32(image, offset + 28),
        number_of_relocations: read_u16(image, offset + 32),
        number_of_linenumbers: read_u16(image, offset + 34),
        characteristics: read_u32(image, offset + 36),
    }
}

pub(crate) fn read_data_directories(image: &[u8], offset: usize, count: usize) -> (entries: Vec<
    DataDirectory,
>)
    requires
        offset + DATA_DIRECTORY_SIZE * count <= image.len(),
    ensures
        entries@ == data_directories_at(image@, offset as int, count as nat),
{
    let mut entries: Vec<DataDirectory> = Vec::new();
    let mut i: usize = 0;
    while i < count
        invariant
            i <= count,
            offset + DATA_DIRECTORY_SIZE * count <= image.len(),
            entries@.len() == i,
            forall|k: int|
                0 <= k < i ==> entries@[k] == data_directory_at(
                    image@,
                    offset + DATA_DIRECTORY_SIZE * k,
                ),
        decreases count - i,
    {
        entries.push(read_data_directory(image, offset + DATA_DIRECTORY_SIZE * i));
        i += 1;
    }
    assert(entries@ =~= data_directories_at(image@, offset as int, count as nat));
    entries
}

pub(crate) fn read_section_headers(image: &[u8], offset: usize, count: usize) -> (headers: Vec<
    SectionHeader,
>)
    requires
        offset + SECTION_HEADER_SIZE * count <= image.len(),
    ensures
        headers@ == section_headers_at(image@, offset as int, count as nat),
{
    let mut headers: Vec<SectionHeader> = Vec::new();
    let mut i: usize = 0;
    while i < count
        invariant
            i <= count,
            offset + SECTION_HEADER_SIZE * count <= image.len(),
            headers@.len() == i,
            forall|k: int|
                0 <= k < i ==> headers@[k] == section_header_at(
                    image@,
                    offset + SECTION_HEADER_SIZE * k,
                ),
        decreases count - i,
    {
        headers.push(read_section_header(image, offset + SECTION_HEADER_SIZE * i));
        i += 1;
    }
    assert(headers@ =~= section_headers_at(image@, offset as int, count as nat));
    headers
}

} // verus!
