use stockton_bsp::lumps::textures::{ContentsFlags, SurfaceFlags, TexturesLump};
use stockton_bsp::types::Error;

#[test]
fn textures_single_texture() {
    let buf: &[u8] = &[
        b'T', b'E', b'S', b'T', b' ', b'T', b'E', b'X', b'T', b'U', b'R', b'E', b' ', b' ', b' ',
        b' ', // name (padded to 64 bytes)
        b' ', b' ', b' ', b' ', b' ', b' ', b' ', b' ', b' ', b' ', b' ', b' ', b' ', b' ', b' ',
        b' ', b' ', b' ', b' ', b' ', b' ', b' ', b' ', b' ', b' ', b' ', b' ', b' ', b' ', b' ',
        b' ', b' ', b' ', b' ', b' ', b' ', b' ', b' ', b' ', b' ', b' ', b' ', b' ', b' ', b' ',
        b' ', b' ', b' ', 0x43, 0x00, 0x04, 0x00, // surface flags
        0x09, 0x00, 0x00, 0x00, // contents flags
    ];

    let lump = TexturesLump::from_lump(buf).unwrap();

    assert_eq!(lump.textures.len(), 1);

    assert_eq!(lump.textures[0].name, format!("{:64}", "TEST TEXTURE"));
    assert_eq!(
        lump.textures[0].surface,
        SurfaceFlags::from_bits(
            SurfaceFlags::NO_DAMAGE | SurfaceFlags::SLICK | SurfaceFlags::FLESH | SurfaceFlags::DUST
        )
    );
    assert_eq!(
        lump.textures[0].contents,
        ContentsFlags::from_bits(ContentsFlags::SOLID | ContentsFlags::LAVA)
    );
}

#[test]
fn textures_multiple_textures() {
    let buf: &[u8] = &[
        b'T', b'E', b'S', b'T', b' ', b'T', b'E', b'X', b'T', b'U', b'R', b'E', b'1', b' ', b' ',
        b' ', // name (padded to 64 bytes)
        b' ', b' ', b' ', b' ', b' ', b' ', b' ', b' ', b' ', b' ', b' ', b' ', b' ', b' ', b' ',
        b' ', b' ', b' ', b' ', b' ', b' ', b' ', b' ', b' ', b' ', b' ', b' ', b' ', b' ', b' ',
        b' ', b' ', b' ', b' ', b' ', b' ', b' ', b' ', b' ', b' ', b' ', b' ', b' ', b' ', b' ',
        b' ', b' ', b' ', 0x43, 0x00, 0x04, 0x00, // surface flags
        0x09, 0x00, 0x00, 0x00, // contents flags
        b'T', b'E', b'S', b'T', b' ', b'T', b'E', b'X', b'T', b'U', b'R', b'E', b'2', b' ', b' ',
        b' ', // name (padded to 64 bytes)
        b' ', b' ', b' ', b' ', b' ', b' ', b' ', b' ', b' ', b' ', b' ', b' ', b' ', b' ', b' ',
        b' ', b' ', b' ', b' ', b' ', b' ', b' ', b' ', b' ', b' ', b' ', b' ', b' ', b' ', b' ',
        b' ', b' ', b' ', b' ', b' ', b' ', b' ', b' ', b' ', b' ', b' ', b' ', b' ', b' ', b' ',
        b' ', b' ', b' ', 0x2c, 0x10, 0x00, 0x00, // surface flags
        0x01, 0x00, 0x00, 0x00, // contents flags
        b'T', b'E', b'S', b'T', b' ', b'T', b'E', b'X', b'T', b'U', b'R', b'E', b'3', b' ', b' ',
        b' ', // name (padded to 64 bytes)
        b' ', b' ', b' ', b' ', b' ', b' ', b' ', b' ', b' ', b' ', b' ', b' ', b' ', b' ', b' ',
        b' ', b' ', b' ', b' ', b' ', b' ', b' ', b' ', b' ', b' ', b' ', b' ', b' ', b' ', b' ',
        b' ', b' ', b' ', b' ', b' ', b' ', b' ', b' ', b' ', b' ', b' ', b' ', b' ', b' ', b' ',
        b' ', b' ', b' ', 0x00, 0x0a, 0x00, 0x00, // surface flags
        0x41, 0x00, 0x00, 0x00, // contents flags
    ];

    let lump = TexturesLump::from_lump(buf).unwrap();

    assert_eq!(lump.textures.len(), 3);

    assert_eq!(lump.textures[0].name, format!("{:64}", "TEST TEXTURE1"));
    assert_eq!(lump.textures[1].name, format!("{:64}", "TEST TEXTURE2"));
    assert_eq!(lump.textures[2].name, format!("{:64}", "TEST TEXTURE3"));

    assert_eq!(
        lump.textures[0].surface,
        SurfaceFlags::from_bits(
            SurfaceFlags::NO_DAMAGE | SurfaceFlags::SLICK | SurfaceFlags::FLESH | SurfaceFlags::DUST
        )
    );
    assert_eq!(
        lump.textures[1].surface,
        SurfaceFlags::from_bits(
            SurfaceFlags::METAL_STEPS
                | SurfaceFlags::NO_MARKS
                | SurfaceFlags::LADDER
                | SurfaceFlags::SKY
        )
    );
    assert_eq!(
        lump.textures[2].surface,
        SurfaceFlags::from_bits(SurfaceFlags::POINT_LIGHT | SurfaceFlags::SKIP)
    );

    assert_eq!(
        lump.textures[0].contents,
        ContentsFlags::from_bits(ContentsFlags::SOLID | ContentsFlags::LAVA)
    );
    assert_eq!(lump.textures[1].contents, ContentsFlags::from_bits(ContentsFlags::SOLID));
    assert_eq!(
        lump.textures[2].contents,
        ContentsFlags::from_bits(ContentsFlags::SOLID | ContentsFlags::FOG)
    );
}

fn record(name: &[u8], surface: u32, contents: u32) -> Vec<u8> {
    let mut rec = vec![0u8; 64];
    rec[..name.len()].copy_from_slice(name);
    rec.extend_from_slice(&surface.to_le_bytes());
    rec.extend_from_slice(&contents.to_le_bytes());
    rec
}

#[test]
fn textures_reject_a_wrong_length() {
    assert_eq!(TexturesLump::from_lump(&[]).unwrap_err(), Error::BadSize { req: 72 });
    let rec = record(b"a", 0, 0);
    assert_eq!(TexturesLump::from_lump(&rec[..71]).unwrap_err(), Error::BadSize { req: 72 });
    let mut two = rec.clone();
    two.extend_from_slice(&rec);
    two.push(0);
    assert_eq!(TexturesLump::from_lump(&two).unwrap_err(), Error::BadSize { req: 72 });
}

#[test]
fn textures_reject_a_name_that_is_not_text() {
    let mut lump = record(b"fine", 0, 0);
    lump.extend_from_slice(&record(&[b'a', 0xff, b'b'], 0, 0));
    assert_eq!(TexturesLump::from_lump(&lump).unwrap_err(), Error::BadFormat);
    // a character cut off by the end of the name
    let mut cut = vec![b' '; 63];
    cut.push(0xc3);
    assert_eq!(TexturesLump::from_lump(&record(&cut, 0, 0)).unwrap_err(), Error::BadFormat);
}

#[test]
fn textures_keep_the_name_as_it_is_stored() {
    let lump = TexturesLump::from_lump(&record("textures/caf\u{e9}".as_bytes(), 0, 0)).unwrap();
    let mut expected = String::from("textures/caf\u{e9}");
    while expected.len() < 64 {
        expected.push('\0');
    }
    assert_eq!(lump.textures[0].name, expected);
}

#[test]
fn textures_keep_bits_without_a_name() {
    // 0x0008_0000 names no surface flag, 0x4 and 0x2 no contents flag
    let lump = TexturesLump::from_lump(&record(b"x", 0x0008_0001, 0x0000_0006)).unwrap();
    assert_eq!(lump.textures[0].surface.bits(), 0x0008_0001);
    assert_eq!(lump.textures[0].contents.bits(), 6);
    assert_eq!(lump.textures[0].surface, SurfaceFlags { bits: 0x0008_0001 });
    let all = TexturesLump::from_lump(&record(b"x", 0xffff_ffff, 0xffff_ffff)).unwrap();
    assert_eq!(all.textures[0].surface.bits, 0xffff_ffff);
    assert_eq!(all.textures[0].contents.bits, 0xffff_ffff);
}

#[test]
fn surface_flags_are_sets_of_bits() {
    let a = SurfaceFlags::from_bits(SurfaceFlags::SKY | SurfaceFlags::SLICK);
    let b = SurfaceFlags::from_bits(SurfaceFlags::SLICK | SurfaceFlags::HINT);
    assert_eq!(a.bits(), 0x6);
    assert!(a.contains(SurfaceFlags::SKY));
    assert!(a.contains(SurfaceFlags::SKY | SurfaceFlags::SLICK));
    assert!(!a.contains(SurfaceFlags::HINT));
    assert!(!a.contains(SurfaceFlags::SKY | SurfaceFlags::HINT));
    assert!(a.contains(0));
    assert_eq!(a.union(b).bits(), 0x106);
    assert_eq!(a.intersection(b).bits(), 0x2);
    assert_eq!(a.union(a), a);
    assert_eq!(a.intersection(SurfaceFlags::from_bits(0)).bits(), 0);
}

#[test]
fn contents_flags_are_sets_of_bits() {
    let a = ContentsFlags::from_bits(ContentsFlags::SOLID | ContentsFlags::NODROP);
    let b = ContentsFlags::from_bits(ContentsFlags::NODROP | ContentsFlags::WATER);
    assert_eq!(a.bits(), 0x8000_0001);
    assert!(a.contains(ContentsFlags::NODROP));
    assert!(!a.contains(ContentsFlags::WATER));
    assert_eq!(a.union(b).bits(), 0x8000_0021);
    assert_eq!(a.intersection(b).bits(), 0x8000_0000);
}

#[test]
fn flag_values() {
    assert_eq!(SurfaceFlags::NO_DAMAGE, 0x1);
    assert_eq!(SurfaceFlags::LADDER, 0x8);
    assert_eq!(SurfaceFlags::NO_IMPACT, 0x10);
    assert_eq!(SurfaceFlags::NODRAW, 0x80);
    assert_eq!(SurfaceFlags::LIGHT_FILTER, 0x8000);
    assert_eq!(SurfaceFlags::DUST, 0x40000);
    assert_eq!(ContentsFlags::LAVA, 0x8);
    assert_eq!(ContentsFlags::AREA_PORTAL, 0x8000);
    assert_eq!(ContentsFlags::CORPSE, 0x0400_0000);
    assert_eq!(ContentsFlags::DETAIL, 0x0800_0000);
    assert_eq!(ContentsFlags::TRIGGER, 0x4000_0000);
}
