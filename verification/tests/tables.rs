use pe_image::debug::DebugDirectory;
use pe_image::import::ImportDescriptor;
use pe_image::{DebugTable, Error, ImportTable, PeHeaders};

fn write_u16(image: &mut [u8], offset: usize, value: u16) {
    image[offset..offset + 2].copy_from_slice(&value.to_le_bytes());
}

fn write_u32(image: &mut [u8], offset: usize, value: u32) {
    image[offset..offset + 4].copy_from_slice(&value.to_le_bytes());
}

/// A 32-bit image of 0x400 bytes with seven directory entries, of which the
/// import entry and the debug entry are as given, each as address and size.
fn image_with_tables(import: (u32, u32), debug: (u32, u32)) -> Vec<u8> {
    let mut image = vec![0u8; 0x400];
    image[..2].copy_from_slice(b"MZ");
    write_u32(&mut image, 60, 0x40);
    image[0x40..0x44].copy_from_slice(b"PE\0\0");
    write_u16(&mut image, 0x40 + 24, 0x10b);
    write_u32(&mut image, 0x40 + 24 + 92, 7);
    let directories = 0x40 + 120;
    write_u32(&mut image, directories + 8, import.0);
    write_u32(&mut image, directories + 8 + 4, import.1);
    write_u32(&mut image, directories + 8 * 6, debug.0);
    write_u32(&mut image, directories + 8 * 6 + 4, debug.1);
    image
}

fn write_import(image: &mut [u8], offset: usize, seed: u32) {
    for field in 0..5 {
        write_u32(image, offset + 4 * field, seed + field as u32);
    }
}

fn expected_import(seed: u32) -> ImportDescriptor {
    ImportDescriptor {
        original_first_thunk: seed,
        time_date_stamp: seed + 1,
        forwarder_chain: seed + 2,
        name: seed + 3,
        first_thunk: seed + 4,
    }
}

fn write_debug(image: &mut [u8], offset: usize, seed: u32) {
    write_u32(image, offset, seed);
    write_u32(image, offset + 4, seed + 1);
    write_u16(image, offset + 8, seed as u16 + 2);
    write_u16(image, offset + 10, seed as u16 + 3);
    write_u32(image, offset + 12, seed + 4);
    write_u32(image, offset + 16, seed + 5);
    write_u32(image, offset + 20, seed + 6);
    write_u32(image, offset + 24, seed + 7);
}

fn expected_debug(seed: u32) -> DebugDirectory {
    DebugDirectory {
        characteristics: seed,
        time_date_stamp: seed + 1,
        major_version: seed as u16 + 2,
        minor_version: seed as u16 + 3,
        typ: seed + 4,
        size_of_data: seed + 5,
        address_of_raw_data: seed + 6,
        pointer_to_raw_data: seed + 7,
    }
}

#[test]
fn import_table_leaves_out_the_terminator() {
    for k in 0..8usize {
        let mut image = image_with_tables((0x200, 20 * (k as u32 + 1)), (0, 0));
        for i in 0..k {
            write_import(&mut image, 0x200 + 20 * i, 0x1000 * (i as u32 + 1));
        }
        let headers = PeHeaders::parse(&image).unwrap();
        let table = headers.import_table_mem(&image).unwrap();
        assert_eq!(table.import_descriptors.len(), k);
        for i in 0..k {
            assert_eq!(table.import_descriptors[i], expected_import(0x1000 * (i as u32 + 1)));
        }
    }
}

#[test]
fn import_table_of_three_records_has_two_descriptors() {
    let mut image = image_with_tables((0x200, 60), (0, 0));
    write_import(&mut image, 0x200, 0x11);
    write_import(&mut image, 0x214, 0x22);
    let headers = PeHeaders::parse(&image).unwrap();
    assert_eq!(
        headers.import_table_mem(&image).unwrap().import_descriptors,
        vec![expected_import(0x11), expected_import(0x22)]
    );
}

#[test]
fn import_table_counts_whole_records_only() {
    let mut image = image_with_tables((0x200, 79), (0, 0));
    write_import(&mut image, 0x200, 0x11);
    write_import(&mut image, 0x214, 0x22);
    write_import(&mut image, 0x228, 0x33);
    assert_eq!(ImportTable::parse(&image, 0x200, 79).unwrap().import_descriptors.len(), 2);
    assert_eq!(ImportTable::parse(&image, 0x200, 80).unwrap().import_descriptors.len(), 3);
    assert_eq!(ImportTable::parse(&image, 0x200, 39).unwrap().import_descriptors.len(), 0);
    assert_eq!(ImportTable::parse(&image, 0x200, 20).unwrap().import_descriptors.len(), 0);
}

#[test]
fn import_table_is_missing_without_an_entry_or_with_an_empty_one() {
    let image = image_with_tables((0x200, 0), (0x300, 56));
    let headers = PeHeaders::parse(&image).unwrap();
    assert_eq!(headers.import_table_mem(&image), Err(Error::MissingImportTable));
    let mut image = image_with_tables((0x200, 40), (0, 0));
    write_u32(&mut image, 0x40 + 24 + 92, 1);
    let headers = PeHeaders::parse(&image).unwrap();
    assert_eq!(headers.data_directories.len(), 1);
    assert_eq!(headers.import_table_mem(&image), Err(Error::MissingImportTable));
}

#[test]
fn import_table_without_room_for_the_terminator_is_rejected() {
    let image = image_with_tables((0x200, 19), (0, 0));
    let headers = PeHeaders::parse(&image).unwrap();
    assert_eq!(headers.import_table_mem(&image), Err(Error::InvalidHeaders));
    assert_eq!(ImportTable::parse(&image, 0x200, 1), Err(Error::InvalidHeaders));
    assert_eq!(ImportTable::parse(&image, 0x200, 0), Err(Error::InvalidHeaders));
}

#[test]
fn import_table_outside_the_image_is_rejected() {
    let image = image_with_tables((0x3E0, 60), (0, 0));
    let headers = PeHeaders::parse(&image).unwrap();
    // Two descriptors from 0x3E0 would end at 0x408.
    assert_eq!(headers.import_table_mem(&image), Err(Error::InvalidHeaders));
    // Two descriptors from 0x3D8 end with the image.
    assert_eq!(ImportTable::parse(&image, 0x3D8, 60).unwrap().import_descriptors.len(), 2);
    assert_eq!(ImportTable::parse(&image, 0x3D9, 60), Err(Error::InvalidHeaders));
    assert_eq!(ImportTable::parse(&image, 0x401, 20), Err(Error::InvalidHeaders));
    assert_eq!(ImportTable::parse(&image, 0x400, 20).unwrap().import_descriptors.len(), 0);
    assert_eq!(ImportTable::parse(&image, 0, usize::MAX), Err(Error::InvalidHeaders));
    assert_eq!(ImportTable::parse(&image, usize::MAX, 40), Err(Error::InvalidHeaders));
}

#[test]
fn debug_table_leaves_out_the_terminator() {
    for k in 0..8usize {
        let mut image = image_with_tables((0, 0), (0x200, 28 * (k as u32 + 1)));
        for i in 0..k {
            write_debug(&mut image, 0x200 + 28 * i, 0x100 * (i as u32 + 1));
        }
        let headers = PeHeaders::parse(&image).unwrap();
        let table = headers.debug_table_mem(&image).unwrap();
        assert_eq!(table.debug_descriptors.len(), k);
        for i in 0..k {
            assert_eq!(table.debug_descriptors[i], expected_debug(0x100 * (i as u32 + 1)));
        }
    }
}

#[test]
fn debug_table_of_two_records_has_one_directory() {
    let mut image = image_with_tables((0, 0), (0x300, 56));
    write_debug(&mut image, 0x300, 0x0A0B_0000);
    let headers = PeHeaders::parse(&image).unwrap();
    assert_eq!(
        headers.debug_table_mem(&image).unwrap().debug_descriptors,
        vec![DebugDirectory {
            characteristics: 0x0A0B_0000,
            time_date_stamp: 0x0A0B_0001,
            major_version: 2,
            minor_version: 3,
            typ: 0x0A0B_0004,
            size_of_data: 0x0A0B_0005,
            address_of_raw_data: 0x0A0B_0006,
            pointer_to_raw_data: 0x0A0B_0007,
        }]
    );
}

#[test]
fn debug_table_is_missing_without_an_entry_or_with_an_empty_one() {
    let image = image_with_tables((0x200, 40), (0x300, 0));
    let headers = PeHeaders::parse(&image).unwrap();
    assert_eq!(headers.debug_table_mem(&image), Err(Error::MissingDebugTable));
    let mut image = image_with_tables((0x200, 40), (0x300, 56));
    write_u32(&mut image, 0x40 + 24 + 92, 6);
    let headers = PeHeaders::parse(&image).unwrap();
    assert_eq!(headers.debug_table_mem(&image), Err(Error::MissingDebugTable));
    assert!(headers.import_table_mem(&image).is_ok());
}

#[test]
fn debug_table_without_room_for_the_terminator_is_rejected() {
    let image = image_with_tables((0, 0), (0x300, 27));
    let headers = PeHeaders::parse(&image).unwrap();
    assert_eq!(headers.debug_table_mem(&image), Err(Error::InvalidHeaders));
    assert_eq!(DebugTable::parse(&image, 0x300, 0), Err(Error::InvalidHeaders));
    assert_eq!(DebugTable::parse(&image, 0x300, 28).unwrap().debug_descriptors.len(), 0);
}

#[test]
fn debug_table_outside_the_image_is_rejected() {
    let image = image_with_tables((0, 0), (0x3F0, 56));
    let headers = PeHeaders::parse(&image).unwrap();
    assert_eq!(headers.debug_table_mem(&image), Err(Error::InvalidHeaders));
    assert_eq!(DebugTable::parse(&image, 0x400 - 28, 56).unwrap().debug_descriptors.len(), 1);
    assert_eq!(DebugTable::parse(&image, 0x400 - 27, 56), Err(Error::InvalidHeaders));
    assert_eq!(DebugTable::parse(&image, 0, usize::MAX), Err(Error::InvalidHeaders));
}
