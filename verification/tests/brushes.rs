use stockton_bsp::lumps::brushes::{
    Brush, BrushSide, BrushesLump, BRUSH_SIDES, BRUSH_TEXTURE, SIDE_PLANE, SIDE_TEXTURE,
};
use stockton_bsp::lumps::planes::{Plane, PlanesLump};
use stockton_bsp::lumps::textures::{ContentsFlags, SurfaceFlags, Texture, TexturesLump};
use stockton_bsp::types::{Error, Float32, Vector3};

fn words(values: &[i32]) -> Vec<u8> {
    let mut out = Vec::new();
    for v in values {
        out.extend_from_slice(&v.to_le_bytes());
    }
    out
}

fn three_textures() -> TexturesLump {
    TexturesLump {
        textures: vec![
            Texture {
                name: "One".to_string(),
                surface: SurfaceFlags::from_bits(SurfaceFlags::SKIP),
                contents: ContentsFlags::from_bits(ContentsFlags::SOLID),
            },
            Texture {
                name: "Two".to_string(),
                surface: SurfaceFlags::from_bits(SurfaceFlags::SKIP),
                contents: ContentsFlags::from_bits(ContentsFlags::SOLID),
            },
            Texture {
                name: "Three".to_string(),
                surface: SurfaceFlags::from_bits(SurfaceFlags::SKIP),
                contents: ContentsFlags::from_bits(ContentsFlags::SOLID),
            },
        ],
    }
}

fn three_planes() -> PlanesLump {
    PlanesLump {
        planes: vec![
            Plane {
                normal: Vector3::zero(),
                dist: Float32 { bits: 1.0f32.to_bits() },
                complement_normal: Vector3::zero(),
            },
            Plane {
                normal: Vector3::zero(),
                dist: Float32 { bits: 2.0f32.to_bits() },
                complement_normal: Vector3::zero(),
            },
            Plane {
                normal: Vector3::zero(),
                dist: Float32 { bits: 3.0f32.to_bits() },
                complement_normal: Vector3::zero(),
            },
        ],
    }
}

#[test]
fn test_brushes() {
    // three brushes: first side, number of sides, texture
    let mut buf = words(&[0, 1, 0, 1, 2, 1, 3, 0, 2]);
    // three sides: plane, texture
    buf.extend_from_slice(&words(&[0, 0, 1, 1, 2, 2]));

    let brushes = &buf[..0x24];
    let sides = &buf[0x24..];

    let textures = three_textures();
    let planes = three_planes();

    let parsed = BrushesLump::from_lump(brushes, sides, &textures, &planes).unwrap();

    assert_eq!(parsed.brushes[0].texture_idx, 0);
    assert_eq!(parsed.brushes[0].sides.len(), 1);
    assert_eq!(parsed.brushes[0].sides[0].plane_idx, 0);
    assert_eq!(parsed.brushes[0].sides[0].texture_idx, 0);

    assert_eq!(parsed.brushes[1].texture_idx, 1);
    assert_eq!(parsed.brushes[1].sides.len(), 2);
    assert_eq!(parsed.brushes[1].sides[0].plane_idx, 1);
    assert_eq!(parsed.brushes[1].sides[0].texture_idx, 1);
    assert_eq!(parsed.brushes[1].sides[1].plane_idx, 2);
    assert_eq!(parsed.brushes[1].sides[1].texture_idx, 2);

    assert_eq!(parsed.brushes[2].texture_idx, 2);
    assert_eq!(parsed.brushes[2].sides.len(), 0);

    assert_eq!(parsed.brushes.len(), 3);
    // the low bit of the plane index says which way the side faces
    assert!(!parsed.brushes[0].sides[0].is_opposing);
    assert!(parsed.brushes[1].sides[0].is_opposing);
    assert!(!parsed.brushes[1].sides[1].is_opposing);
}

#[test]
fn brush_texture_out_of_range() {
    // the texture index equals the number of textures
    let brushes = words(&[0, 0, 3]);
    let err = BrushesLump::from_lump(&brushes, &[], &three_textures(), &three_planes()).unwrap_err();
    assert_eq!(err, Error::BadRef { loc: BRUSH_TEXTURE, val: 3 });
    assert_eq!(BRUSH_TEXTURE, "Brush.texture_idx");

    // the last texture is fine
    let brushes = words(&[0, 0, 2]);
    let ok = BrushesLump::from_lump(&brushes, &[], &three_textures(), &three_planes()).unwrap();
    assert_eq!(ok.brushes, vec![Brush { sides: vec![], texture_idx: 2 }]);

    // a negative index is far out of range
    let brushes = words(&[0, 0, -1]);
    let err = BrushesLump::from_lump(&brushes, &[], &three_textures(), &three_planes()).unwrap_err();
    assert_eq!(err, Error::BadRef { loc: BRUSH_TEXTURE, val: 0xffff_ffff });
}

#[test]
fn brush_texture_is_checked_before_the_sides() {
    let brushes = words(&[7, 7, 3]);
    let err = BrushesLump::from_lump(&brushes, &[], &three_textures(), &three_planes()).unwrap_err();
    assert_eq!(err, Error::BadRef { loc: BRUSH_TEXTURE, val: 3 });
}

#[test]
fn brush_sides_out_of_range() {
    let sides = words(&[0, 0, 1, 1]);
    // two sides from side 1 on, where there are two sides in all
    let err = BrushesLump::from_lump(&words(&[1, 2, 0]), &sides, &three_textures(), &three_planes())
        .unwrap_err();
    assert_eq!(err, Error::BadRef { loc: BRUSH_SIDES, val: 3 });
    assert_eq!(BRUSH_SIDES, "Brush.sides");
    // a run that starts after the lump
    let err = BrushesLump::from_lump(&words(&[2, 1, 0]), &sides, &three_textures(), &three_planes())
        .unwrap_err();
    assert_eq!(err, Error::BadRef { loc: BRUSH_SIDES, val: 3 });
    // the whole lump is fine
    let ok = BrushesLump::from_lump(&words(&[0, 2, 0]), &sides, &three_textures(), &three_planes())
        .unwrap();
    assert_eq!(ok.brushes[0].sides.len(), 2);
    // the run that ends with the lump is fine
    let ok = BrushesLump::from_lump(&words(&[1, 1, 0]), &sides, &three_textures(), &three_planes())
        .unwrap();
    assert_eq!(
        ok.brushes[0].sides,
        vec![BrushSide { plane_idx: 1, texture_idx: 1, is_opposing: true }]
    );
}

#[test]
fn brush_without_sides_names_any_start() {
    // no side is read where the count is zero or less
    let ok = BrushesLump::from_lump(
        &words(&[1000, 0, 0, -5, -1, 1, 0, i32::MIN, 2]),
        &[],
        &three_textures(),
        &three_planes(),
    )
    .unwrap();
    assert_eq!(
        ok.brushes,
        vec![
            Brush { sides: vec![], texture_idx: 0 },
            Brush { sides: vec![], texture_idx: 1 },
            Brush { sides: vec![], texture_idx: 2 },
        ]
    );
}

#[test]
fn brush_side_plane_out_of_range() {
    // three planes are six records: 5 is the last, 6 is out of range
    let ok = BrushesLump::from_lump(
        &words(&[0, 1, 0]),
        &words(&[5, 0]),
        &three_textures(),
        &three_planes(),
    )
    .unwrap();
    assert_eq!(
        ok.brushes[0].sides,
        vec![BrushSide { plane_idx: 5, texture_idx: 0, is_opposing: true }]
    );
    let err = BrushesLump::from_lump(
        &words(&[0, 1, 0]),
        &words(&[6, 0]),
        &three_textures(),
        &three_planes(),
    )
    .unwrap_err();
    assert_eq!(err, Error::BadRef { loc: SIDE_PLANE, val: 6 });
    assert_eq!(SIDE_PLANE, "BrushSide.plane_idx");
}

#[test]
fn brush_side_texture_out_of_range() {
    let err = BrushesLump::from_lump(
        &words(&[0, 2, 0]),
        &words(&[0, 2, 1, 3]),
        &three_textures(),
        &three_planes(),
    )
    .unwrap_err();
    assert_eq!(err, Error::BadRef { loc: SIDE_TEXTURE, val: 3 });
    assert_eq!(SIDE_TEXTURE, "BrushSide.texture_idx");
    // the plane of a side is checked before its texture
    let err = BrushesLump::from_lump(
        &words(&[0, 1, 0]),
        &words(&[9, 9]),
        &three_textures(),
        &three_planes(),
    )
    .unwrap_err();
    assert_eq!(err, Error::BadRef { loc: SIDE_PLANE, val: 9 });
}

#[test]
fn brushes_first_error_wins() {
    // brush 0 is fine, brush 1 has a bad side, brush 2 a bad texture
    let err = BrushesLump::from_lump(
        &words(&[0, 1, 0, 1, 1, 0, 0, 0, 9]),
        &words(&[0, 0, 0, 8]),
        &three_textures(),
        &three_planes(),
    )
    .unwrap_err();
    assert_eq!(err, Error::BadRef { loc: SIDE_TEXTURE, val: 8 });
}

#[test]
fn brushes_reject_a_wrong_length() {
    let err =
        BrushesLump::from_lump(&[0; 13], &[], &three_textures(), &three_planes()).unwrap_err();
    assert_eq!(err, Error::BadSize { req: 12 });
    let err =
        BrushesLump::from_lump(&[0; 12], &[0; 9], &three_textures(), &three_planes()).unwrap_err();
    assert_eq!(err, Error::BadSize { req: 8 });
    // both wrong: the brushes lump is named
    let err =
        BrushesLump::from_lump(&[0; 11], &[0; 9], &three_textures(), &three_planes()).unwrap_err();
    assert_eq!(err, Error::BadSize { req: 12 });
    let ok = BrushesLump::from_lump(&[], &[], &three_textures(), &three_planes()).unwrap();
    assert_eq!(ok.brushes.len(), 0);
}

#[test]
fn decoded_brushes_point_into_their_lumps() {
    let textures = three_textures();
    let planes = three_planes();
    let parsed = BrushesLump::from_lump(
        &words(&[0, 3, 2, 1, 2, 0]),
        &words(&[5, 2, 0, 0, 3, 1]),
        &textures,
        &planes,
    )
    .unwrap();
    for brush in &parsed.brushes {
        assert!(brush.texture_idx < textures.textures.len());
        for side in &brush.sides {
            assert!(side.plane_idx / 2 < planes.planes.len());
            assert!(side.texture_idx < textures.textures.len());
            assert_eq!(side.is_opposing, side.plane_idx % 2 == 1);
        }
    }
}

#[test]
fn brush_negative_words() {
    let sides = words(&[0, 0, 1, 1]);
    // a run of sides that starts before the lump
    let err = BrushesLump::from_lump(&words(&[-1, 2, 0]), &sides, &three_textures(), &three_planes())
        .unwrap_err();
    let sum: u64 = 0xffff_ffff + 2;
    let val = if sum > usize::MAX as u64 { usize::MAX } else { sum as usize };
    assert_eq!(err, Error::BadRef { loc: BRUSH_SIDES, val });
    // a negative plane, a negative texture
    let err = BrushesLump::from_lump(
        &words(&[0, 1, 0]),
        &words(&[-2, 0]),
        &three_textures(),
        &three_planes(),
    )
    .unwrap_err();
    assert_eq!(err, Error::BadRef { loc: SIDE_PLANE, val: 0xffff_fffe });
    let err = BrushesLump::from_lump(
        &words(&[0, 1, 0]),
        &words(&[0, i32::MIN]),
        &three_textures(),
        &three_planes(),
    )
    .unwrap_err();
    assert_eq!(err, Error::BadRef { loc: SIDE_TEXTURE, val: 0x8000_0000 });
}
