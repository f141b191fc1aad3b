use stockton_bsp::directory::{Header, DIRECTORY, MAGIC_HEADER};
use stockton_bsp::types::Error;

fn header_bytes(version: u32, entries: &[(u32, u32)]) -> Vec<u8> {
    let mut data = vec![0x49, 0x42, 0x53, 0x50];
    data.extend_from_slice(&version.to_le_bytes());
    for (offset, length) in entries {
        data.extend_from_slice(&offset.to_le_bytes());
        data.extend_from_slice(&length.to_le_bytes());
    }
    data
}

#[test]
fn header() {
    let data = [0x49, 0x42, 0x53, 0x50, // magic number (IBSP)
                0x2e, 0x00, 0x00, 0x00, // version
                0x00, 0x00, 0x00, 0x00,     0xff, 0x00, 0x00, 0x00, // 17 lump directory entries.
                0x01, 0x00, 0x00, 0x00,     0xfe, 0x00, 0x00, 0x00,
                0x02, 0x00, 0x00, 0x00,     0xfd, 0x00, 0x00, 0x00,
                0x03, 0x00, 0x00, 0x00,     0xfc, 0x00, 0x00, 0x00,
                0x04, 0x00, 0x00, 0x00,     0xfb, 0x00, 0x00, 0x00,
                0x05, 0x00, 0x00, 0x00,     0xfa, 0x00, 0x00, 0x00,
                0x06, 0x00, 0x00, 0x00,     0xf9, 0x00, 0x00, 0x00,
                0x07, 0x00, 0x00, 0x00,     0xf8, 0x00, 0x00, 0x00,
                0x08, 0x00, 0x00, 0x00,     0xf7, 0x00, 0x00, 0x00,
                0x09, 0x00, 0x00, 0x00,     0xf6, 0x00, 0x00, 0x00,
                0x0a, 0x00, 0x00, 0x00,     0xf5, 0x00, 0x00, 0x00,
                0x0b, 0x00, 0x00, 0x00,     0xf4, 0x00, 0x00, 0x00,
                0x0c, 0x00, 0x00, 0x00,     0xf3, 0x00, 0x00, 0x00,
                0x0d, 0x00, 0x00, 0x00,     0xf2, 0x00, 0x00, 0x00,
                0x0e, 0x00, 0x00, 0x00,     0xf1, 0x00, 0x00, 0x00,
                0x0f, 0x00, 0x00, 0x00,     0xf0, 0x00, 0x00, 0x00,
                0x10, 0x00, 0x00, 0x00,     0xef, 0x00, 0x00, 0x00,
                ];

    // attempt to parse
    let header = Header::from(&data).unwrap();

    // validity checks
    assert_eq!(header.version, 46);

    let mut n = 0;
    for entry in &header.dir_entries {
        assert_eq!(entry.offset, n);
        assert_eq!(entry.length, 0xff - n);
        n += 1;
    }
    assert_eq!(n, 17);
}

#[test]
fn header_too_short() {
    let data = header_bytes(0x2e, &[(0, 0); 17]);
    assert_eq!(Header::from(&data[..143]).unwrap_err(), Error::BadSize { req: 17 });
    assert_eq!(Header::from(&[]).unwrap_err(), Error::BadSize { req: 17 });
    assert!(Header::from(&data).is_ok());
}

#[test]
fn header_bad_magic() {
    let mut data = header_bytes(0x2e, &[(0, 0); 17]);
    data[3] = 0x51;
    assert_eq!(
        Header::from(&data).unwrap_err(),
        Error::BadMagic { expected: [0x49, 0x42, 0x53, 0x50], actual: [0x49, 0x42, 0x53, 0x51] }
    );
    assert_eq!(MAGIC_HEADER, *b"IBSP");
}

#[test]
fn header_size_is_checked_before_magic() {
    let data = [0u8; 100];
    assert_eq!(Header::from(&data).unwrap_err(), Error::BadSize { req: 17 });
}

#[test]
fn header_keeps_any_version() {
    let data = header_bytes(0x1234_5678, &[(0, 0); 17]);
    let header = Header::from(&data).unwrap();
    assert_eq!(header.version, 0x1234_5678);
    assert_eq!(header.dir_entries.len(), 17);
}

#[test]
fn header_of_quake_live_has_seventeen_entries() {
    let mut entries = vec![(0u32, 0u32); 17];
    entries.push((152, 3));
    let mut data = header_bytes(0x2f, &entries);
    data.extend_from_slice(&[1, 2, 3]);

    // the header is the same whatever the version and whatever follows it
    let header = Header::from(&data).unwrap();
    assert_eq!(header.version, 47);
    assert_eq!(header.dir_entries.len(), 17);
    let short = Header::from(&data[..144]).unwrap();
    assert_eq!(short.version, 47);
    assert_eq!(short.dir_entries, header.dir_entries);
    assert_eq!(Header::from(&data[..143]).unwrap_err(), Error::BadSize { req: 17 });
}

#[test]
fn get_lump_reads_the_eighteenth_entry_of_quake_live() {
    let mut entries = vec![(0u32, 0u32); 17];
    entries.push((153, 2));
    let mut data = header_bytes(0x2f, &entries);
    data.extend_from_slice(&[1, 2, 3]);

    let header = Header::from(&data).unwrap();
    assert_eq!(header.get_lump(&data, 17).unwrap(), &[2, 3]);
    // the lump must lie in the buffer like any other
    assert_eq!(header.get_lump(&data[..154], 17).unwrap_err(), Error::BadSize { req: 2 });
    // the buffer must hold the entry
    assert_eq!(header.get_lump(&data[..151], 17).unwrap_err(), Error::BadSize { req: 18 });
    assert_eq!(header.get_lump(&data[..144], 17).unwrap_err(), Error::BadSize { req: 18 });
    // there is no nineteenth lump
    assert_eq!(
        header.get_lump(&data, 18).unwrap_err(),
        Error::BadRef { loc: DIRECTORY, val: 18 }
    );

    // a file of another version has no eighteenth lump
    data[4] = 0x2e;
    let header = Header::from(&data).unwrap();
    assert_eq!(
        header.get_lump(&data, 17).unwrap_err(),
        Error::BadRef { loc: DIRECTORY, val: 17 }
    );
}

#[test]
fn get_lump_returns_the_range_of_the_entry() {
    let mut entries = vec![(0u32, 0u32); 17];
    entries[0] = (144, 4);
    entries[1] = (146, 3);
    entries[16] = (149, 0);
    let mut data = header_bytes(0x2e, &entries);
    data.extend_from_slice(&[10, 11, 12, 13, 14]);

    let header = Header::from(&data).unwrap();
    assert_eq!(header.get_lump(&data, 0).unwrap(), &[10, 11, 12, 13]);
    // lumps may share bytes: the directory alone says where they lie
    assert_eq!(header.get_lump(&data, 1).unwrap(), &[12, 13, 14]);
    assert_eq!(header.get_lump(&data, 16).unwrap(), &[] as &[u8]);
    assert_eq!(header.get_lump(&data, 2).unwrap(), &[] as &[u8]);
}

#[test]
fn get_lump_stays_inside_the_buffer() {
    let mut entries = vec![(0u32, 0u32); 17];
    for (i, entry) in entries.iter_mut().enumerate() {
        *entry = (144 + i as u32, 17 - i as u32);
    }
    let mut data = header_bytes(0x2e, &entries);
    data.extend_from_slice(&[7u8; 17]);

    let header = Header::from(&data).unwrap();
    for i in 0..17 {
        let lump = header.get_lump(&data, i).unwrap();
        let start = header.dir_entries[i].offset as usize;
        assert!(start + lump.len() <= data.len());
        assert_eq!(lump, &data[start..start + header.dir_entries[i].length as usize]);
    }
}

#[test]
fn get_lump_rejects_a_lump_that_leaves_the_buffer() {
    let mut entries = vec![(0u32, 0u32); 17];
    entries[3] = (140, 5);
    entries[4] = (0xffff_ffff, 0xffff_ffff);
    entries[5] = (145, 0);
    let data = header_bytes(0x2e, &entries);
    assert_eq!(data.len(), 144);

    let header = Header::from(&data).unwrap();
    assert_eq!(header.get_lump(&data, 3).unwrap_err(), Error::BadSize { req: 5 });
    assert_eq!(header.get_lump(&data, 4).unwrap_err(), Error::BadSize { req: 0xffff_ffff });
    assert_eq!(header.get_lump(&data, 5).unwrap_err(), Error::BadSize { req: 0 });
}

#[test]
fn get_lump_rejects_an_index_without_entry() {
    let data = header_bytes(0x2e, &[(0, 0); 17]);
    let header = Header::from(&data).unwrap();
    assert_eq!(
        header.get_lump(&data, 17).unwrap_err(),
        Error::BadRef { loc: DIRECTORY, val: 17 }
    );
    assert_eq!(DIRECTORY, "Header.dir_entries");
}
