use stockton_bsp::lumps::planes::Plane;
use stockton_bsp::lumps::PlanesLump;
use stockton_bsp::types::{Error, Float32, Vector3};

fn number(v: Float32) -> f32 {
    f32::from_bits(v.bits)
}

#[test]
fn planes_lump() {
    //  x                       y                       z                       dist
    let buf: &[u8] = &[
        0x66, 0xe6, 0xf6, 0x42, 0xd7, 0x63, 0xe4, 0x43, 0x00, 0x00, 0x61, 0x44, 0x00, 0x00, 0xc8, 0x42,
        0x00, 0x00, 0x61, 0x44, 0xd7, 0x63, 0xe4, 0x43, 0x66, 0xe6, 0xf6, 0x42, 0x00, 0x00, 0x00, 0x00
    ];

    let lump = PlanesLump::from_lump(buf).unwrap();

    // the two records make one plane
    assert_eq!(lump.planes.len(), 1);

    assert_eq!(number(lump.planes[0].normal.x), 123.45);
    assert_eq!(number(lump.planes[0].normal.y), 456.78);
    assert_eq!(number(lump.planes[0].normal.z), 900.00);

    assert_eq!(number(lump.planes[0].dist), 100.0);

    assert_eq!(number(lump.planes[0].complement_normal.x), 900.0);
    assert_eq!(number(lump.planes[0].complement_normal.y), 456.78);
    assert_eq!(number(lump.planes[0].complement_normal.z), 123.45);
}

#[test]
fn planes_keep_the_bits_of_each_number() {
    let mut buf = Vec::new();
    for word in [1u32, 2, 3, 4, 5, 6, 7, 8, 0x7fc0_0001, 0x8000_0000, 0xffff_ffff, 12, 13, 14, 15, 16] {
        buf.extend_from_slice(&word.to_le_bytes());
    }
    let lump = PlanesLump::from_lump(&buf).unwrap();
    assert_eq!(lump.planes.len(), 2);
    assert_eq!(
        lump.planes[0],
        Plane {
            normal: Vector3 { x: Float32 { bits: 1 }, y: Float32 { bits: 2 }, z: Float32 { bits: 3 } },
            dist: Float32 { bits: 4 },
            complement_normal: Vector3 {
                x: Float32 { bits: 5 },
                y: Float32 { bits: 6 },
                z: Float32 { bits: 7 }
            },
        }
    );
    // a NaN with a payload, minus zero and all ones come through unchanged
    assert_eq!(lump.planes[1].normal.x.bits, 0x7fc0_0001);
    assert_eq!(lump.planes[1].normal.y.bits, 0x8000_0000);
    assert_eq!(lump.planes[1].normal.z.bits, 0xffff_ffff);
    assert_eq!(lump.planes[1].dist.bits, 12);
    assert_eq!(lump.planes[1].complement_normal.z.bits, 15);
}

#[test]
fn planes_reject_a_wrong_length() {
    // empty
    assert_eq!(PlanesLump::from_lump(&[]).unwrap_err(), Error::BadSize { req: 32 });
    // one record: an odd count
    assert_eq!(PlanesLump::from_lump(&[0; 16]).unwrap_err(), Error::BadSize { req: 32 });
    // three records
    assert_eq!(PlanesLump::from_lump(&[0; 48]).unwrap_err(), Error::BadSize { req: 32 });
    // not a whole record
    assert_eq!(PlanesLump::from_lump(&[0; 33]).unwrap_err(), Error::BadSize { req: 32 });
    assert_eq!(PlanesLump::from_lump(&[0; 31]).unwrap_err(), Error::BadSize { req: 32 });
    assert_eq!(PlanesLump::from_lump(&[0; 64]).unwrap().planes.len(), 2);
}
