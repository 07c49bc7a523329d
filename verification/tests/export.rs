use pe_image::export::ExportDirectory;
use pe_image::{Error, ExportTable, PeHeaders};

fn put_u16(image: &mut [u8], offset: usize, value: u16) {
    image[offset..offset + 2].copy_from_slice(&value.to_le_bytes());
}

fn put_u32(image: &mut [u8], offset: usize, value: u32) {
    image[offset..offset + 4].copy_from_slice(&value.to_le_bytes());
}

/// A 64-bit image of 0x400 bytes whose directory array holds `directories`,
/// each as address and size.
fn image_with_directories(directories: &[(u32, u32)]) -> Vec<u8> {
    let mut image = vec![0u8; 0x400];
    image[..2].copy_from_slice(b"MZ");
    put_u32(&mut image, 60, 0x40);
    image[0x40..0x44].copy_from_slice(b"PE\0\0");
    put_u16(&mut image, 0x40 + 24, 0x20b);
    put_u32(&mut image, 0x40 + 24 + 108, directories.len() as u32);
    for (i, (address, size)) in directories.iter().enumerate() {
        put_u32(&mut image, 0x40 + 136 + 8 * i, *address);
        put_u32(&mut image, 0x40 + 136 + 8 * i + 4, *size);
    }
    image
}

const DIRECTORY: usize = 0x200;
const ADDRESSES: usize = 0x300;
const NAMES: usize = 0x320;
const ORDINALS: usize = 0x340;

/// An image with four exported functions, three of them named.
fn image_with_exports() -> Vec<u8> {
    let mut image = image_with_directories(&[(DIRECTORY as u32, 0x1A0)]);
    put_u32(&mut image, DIRECTORY, 0x0101_0101);
    put_u32(&mut image, DIRECTORY + 4, 0x6000_0000);
    put_u16(&mut image, DIRECTORY + 8, 5);
    put_u16(&mut image, DIRECTORY + 10, 6);
    put_u32(&mut image, DIRECTORY + 12, 0x3A0);
    put_u32(&mut image, DIRECTORY + 16, 1);
    put_u32(&mut image, DIRECTORY + 20, 4);
    put_u32(&mut image, DIRECTORY + 24, 3);
    put_u32(&mut image, DIRECTORY + 28, ADDRESSES as u32);
    put_u32(&mut image, DIRECTORY + 32, NAMES as u32);
    put_u32(&mut image, DIRECTORY + 36, ORDINALS as u32);
    for (i, address) in [0x1111u32, 0x2222, 0x3333, 0x4444].iter().enumerate() {
        put_u32(&mut image, ADDRESSES + 4 * i, *address);
    }
    for (i, name) in [0x380u32, 0x388, 0x390].iter().enumerate() {
        put_u32(&mut image, NAMES + 4 * i, *name);
    }
    for (i, ordinal) in [2u16, 0, 3].iter().enumerate() {
        put_u16(&mut image, ORDINALS + 2 * i, *ordinal);
    }
    image[0x380..0x386].copy_from_slice(b"alpha\0");
    image[0x388..0x38D].copy_from_slice(b"beta\0");
    image[0x390..0x396].copy_from_slice(b"gamma\0");
    image[0x3A0..0x3A8].copy_from_slice(b"lib.dll\0");
    image
}

#[test]
fn export_table_holds_the_directory_and_its_three_arrays() {
    let image = image_with_exports();
    let headers = PeHeaders::parse(&image).unwrap();
    let table = headers.export_table_mem(&image).unwrap();
    assert_eq!(
        table.export_directory,
        ExportDirectory {
            characteristics: 0x0101_0101,
            time_date_stamp: 0x6000_0000,
            major_version: 5,
            minor_version: 6,
            name: 0x3A0,
            base: 1,
            number_of_functions: 4,
            number_of_names: 3,
            address_of_functions: 0x300,
            address_of_names: 0x320,
            address_of_name_ordinals: 0x340,
        }
    );
    assert_eq!(table.address_table, vec![0x1111, 0x2222, 0x3333, 0x4444]);
    assert_eq!(table.name_table, vec![0x380, 0x388, 0x390]);
    assert_eq!(table.ordinal_table, vec![2, 0, 3]);
    assert_eq!(table.start_address, 0x200);
    assert_eq!(table.size, 0x1A0);
}

#[test]
fn names_and_ordinals_come_in_table_order() {
    let image = image_with_exports();
    let headers = PeHeaders::parse(&image).unwrap();
    let table = headers.export_table_mem(&image).unwrap();
    let pairs = table.iter_name_ord();
    assert_eq!(pairs, vec![(0x380, 2), (0x388, 0), (0x390, 3)]);
    // The sequence can be asked for again.
    assert_eq!(table.iter_name_ord(), pairs);
}

#[test]
fn a_name_resolves_to_the_slot_that_its_ordinal_selects() {
    let image = image_with_exports();
    let headers = PeHeaders::parse(&image).unwrap();
    let table = headers.export_table_mem(&image).unwrap();
    let entries = table.iter_string_addr(&image).unwrap();
    assert_eq!(
        entries,
        vec![
            (b"alpha".to_vec(), 0x3333usize),
            (b"beta".to_vec(), 0x1111),
            (b"gamma".to_vec(), 0x4444),
        ]
    );
    for (i, (_, address)) in entries.iter().enumerate() {
        let ordinal = table.ordinal_table[i] as usize;
        assert_eq!(*address, table.address_table[ordinal] as usize);
    }
}

#[test]
fn many_names_yield_as_many_pairs() {
    let n = 40usize;
    let mut image = image_with_directories(&[(DIRECTORY as u32, 40)]);
    image.resize(0x1000, 0);
    put_u32(&mut image, DIRECTORY + 20, n as u32);
    put_u32(&mut image, DIRECTORY + 24, n as u32);
    put_u32(&mut image, DIRECTORY + 28, 0x400);
    put_u32(&mut image, DIRECTORY + 32, 0x500);
    put_u32(&mut image, DIRECTORY + 36, 0x600);
    for i in 0..n {
        put_u32(&mut image, 0x400 + 4 * i, 0x9000 + i as u32);
        put_u32(&mut image, 0x500 + 4 * i, 0x700 + 2 * i as u32);
        put_u16(&mut image, 0x600 + 2 * i, (n - 1 - i) as u16);
        image[0x700 + 2 * i] = b'a' + (i % 26) as u8;
    }
    let headers = PeHeaders::parse(&image).unwrap();
    let table = headers.export_table_mem(&image).unwrap();
    let pairs = table.iter_name_ord();
    assert_eq!(pairs.len(), n);
    let entries = table.iter_string_addr(&image).unwrap();
    assert_eq!(entries.len(), n);
    for i in 0..n {
        assert_eq!(pairs[i], (0x700 + 2 * i as u32, (n - 1 - i) as u16));
        assert_eq!(entries[i].0, vec![b'a' + (i % 26) as u8]);
        assert_eq!(entries[i].1, 0x9000 + (n - 1 - i));
    }
}

#[test]
fn export_table_is_missing_without_an_entry() {
    let image = image_with_directories(&[]);
    let headers = PeHeaders::parse(&image).unwrap();
    assert_eq!(headers.export_table_mem(&image), Err(Error::MissingExportTable));
}

#[test]
fn export_table_is_missing_if_the_entry_is_empty() {
    let mut image = image_with_exports();
    put_u32(&mut image, 0x40 + 136 + 4, 0);
    let headers = PeHeaders::parse(&image).unwrap();
    assert_eq!(headers.export_table_mem(&image), Err(Error::MissingExportTable));
}

#[test]
fn export_table_with_address_zero_is_read() {
    let mut image = image_with_directories(&[(0, 40)]);
    image.iter_mut().for_each(|byte| *byte = 0);
    let table = ExportTable::parse(&image, 0, 40).unwrap();
    assert_eq!(table.export_directory.number_of_functions, 0);
    assert!(table.address_table.is_empty());
    assert!(table.name_table.is_empty());
    assert!(table.ordinal_table.is_empty());
    assert!(table.iter_name_ord().is_empty());
    assert_eq!(table.iter_string_addr(&image), Ok(vec![]));
}

#[test]
fn export_directory_outside_the_image_is_rejected() {
    let image = image_with_exports();
    assert!(ExportTable::parse(&image[..0x3A8], 0x200, 1).is_ok());
    assert_eq!(ExportTable::parse(&image, 0x400 - 39, 1), Err(Error::InvalidHeaders));
    assert_eq!(ExportTable::parse(&image, 0x400, 1), Err(Error::InvalidHeaders));
    assert_eq!(ExportTable::parse(&image, usize::MAX, 1), Err(Error::InvalidHeaders));
    let mut image = image_with_exports();
    put_u32(&mut image, 0x40 + 136, 0x3F0);
    let headers = PeHeaders::parse(&image).unwrap();
    assert_eq!(headers.export_table_mem(&image), Err(Error::InvalidHeaders));
}

#[test]
fn export_arrays_outside_the_image_are_rejected() {
    let good = image_with_exports();
    assert!(ExportTable::parse(&good, DIRECTORY, 0).is_ok());
    // The address table would end 4 bytes after the image.
    let mut image = good.clone();
    put_u32(&mut image, DIRECTORY + 28, 0x400 - 12);
    assert_eq!(ExportTable::parse(&image, DIRECTORY, 0), Err(Error::InvalidHeaders));
    put_u32(&mut image, DIRECTORY + 28, 0x400 - 16);
    assert!(ExportTable::parse(&image, DIRECTORY, 0).is_ok());
    let mut image = good.clone();
    put_u32(&mut image, DIRECTORY + 20, 0x4000_0000);
    assert_eq!(ExportTable::parse(&image, DIRECTORY, 0), Err(Error::InvalidHeaders));
    let mut image = good.clone();
    put_u32(&mut image, DIRECTORY + 32, 0xFFFF_FFF0);
    assert_eq!(ExportTable::parse(&image, DIRECTORY, 0), Err(Error::InvalidHeaders));
    // The ordinal table would end 2 bytes after the image.
    let mut image = good.clone();
    put_u32(&mut image, DIRECTORY + 36, 0x400 - 4);
    assert_eq!(ExportTable::parse(&image, DIRECTORY, 0), Err(Error::InvalidHeaders));
    put_u32(&mut image, DIRECTORY + 36, 0x400 - 6);
    assert!(ExportTable::parse(&image, DIRECTORY, 0).is_ok());
}

#[test]
fn an_ordinal_outside_the_address_table_is_rejected() {
    let mut image = image_with_exports();
    put_u16(&mut image, ORDINALS + 2, 4);
    let table = ExportTable::parse(&image, DIRECTORY, 0).unwrap();
    assert_eq!(table.iter_name_ord(), vec![(0x380, 2), (0x388, 4), (0x390, 3)]);
    assert_eq!(table.iter_string_addr(&image), Err(Error::InvalidHeaders));
    put_u16(&mut image, ORDINALS + 2, 3);
    let table = ExportTable::parse(&image, DIRECTORY, 0).unwrap();
    assert_eq!(table.iter_string_addr(&image).unwrap()[1], (b"beta".to_vec(), 0x4444));
}

#[test]
fn a_name_that_does_not_end_inside_the_image_is_rejected() {
    let mut image = image_with_exports();
    put_u32(&mut image, NAMES + 8, 0x3FD);
    image[0x3FD..0x400].copy_from_slice(b"end");
    let table = ExportTable::parse(&image, DIRECTORY, 0).unwrap();
    assert_eq!(table.iter_string_addr(&image), Err(Error::InvalidHeaders));
    image[0x3FF] = 0;
    assert_eq!(table.iter_string_addr(&image).unwrap()[2], (b"en".to_vec(), 0x4444));
    put_u32(&mut image, NAMES + 8, 0x400);
    let table = ExportTable::parse(&image, DIRECTORY, 0).unwrap();
    assert_eq!(table.iter_string_addr(&image), Err(Error::InvalidHeaders));
}

#[test]
fn an_empty_name_is_read_as_empty() {
    let mut image = image_with_exports();
    put_u32(&mut image, NAMES, 0x385);
    let table = ExportTable::parse(&image, DIRECTORY, 0).unwrap();
    assert_eq!(table.iter_string_addr(&image).unwrap()[0], (vec![], 0x3333));
}

#[test]
fn tables_of_different_lengths_are_paired_as_far_as_both_reach() {
    let image = image_with_exports();
    let mut table = ExportTable::parse(&image, DIRECTORY, 0).unwrap();
    table.ordinal_table.pop();
    assert_eq!(table.iter_name_ord(), vec![(0x380, 2), (0x388, 0)]);
    assert_eq!(
        table.iter_string_addr(&image).unwrap(),
        vec![(b"alpha".to_vec(), 0x3333), (b"beta".to_vec(), 0x1111)]
    );
    table.name_table.truncate(1);
    assert_eq!(table.iter_name_ord(), vec![(0x380, 2)]);
}
