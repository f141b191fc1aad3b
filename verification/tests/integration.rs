use stockton_bsp::lumps::brushes::BRUSH_TEXTURE;
use stockton_bsp::lumps::tree::LEAF_FACE;
use stockton_bsp::types::{Error, Float32};
use stockton_bsp::BSPFile;

fn words(values: &[i32]) -> Vec<u8> {
    let mut out = Vec::new();
    for v in values {
        out.extend_from_slice(&v.to_le_bytes());
    }
    out
}

fn numbers(values: &[f32]) -> Vec<u8> {
    let mut out = Vec::new();
    for v in values {
        out.extend_from_slice(&v.to_le_bytes());
    }
    out
}

fn named(name: &str, rest: &[i32]) -> Vec<u8> {
    let mut out = vec![0u8; 64];
    out[..name.len()].copy_from_slice(name.as_bytes());
    out.extend_from_slice(&words(rest));
    out
}

/// The lumps of a small map, by their index in the directory.
fn lumps() -> Vec<Vec<u8>> {
    let mut face = words(&[0, 0, 1, 0, 3, 0, 3, 0]);
    face.extend_from_slice(&[0u8; 72]);
    let mut leaves = words(&[0, 0, 0, 0, 0, 0, 0, 0, 0, 1, 0, 1]);
    leaves.extend_from_slice(&words(&[1, 0, 0, 0, 0, 0, 0, 0, 0, 0, 0, 0]));
    let mut model = numbers(&[-1.0, -2.0, -3.0, 1.0, 2.0, 3.0]);
    model.extend_from_slice(&words(&[0, 1, 0, 1]));
    vec![
        b"{ \"classname\" \"worldspawn\" }\0".to_vec(),  // 0 entities
        named("textures/gothic_trim/pitted_rust", &[0x200, 1]), // 1 textures
        numbers(&[0.0, 0.0, 1.0, 16.0, 0.0, 0.0, -1.0, -16.0]), // 2 planes
        words(&[1, -1, -2, -8, -8, -8, 8, 8, 8]),     // 3 nodes
        leaves,                                       // 4 leaves
        words(&[0]),                                  // 5 leaf faces
        words(&[0]),                                  // 6 leaf brushes
        model,                                        // 7 models
        words(&[0, 1, 0]),                            // 8 brushes
        words(&[1, 0]),                               // 9 brush sides
        vec![0x3f; 3 * 44],                           // 10 vertices
        words(&[0, 1, 2]),                            // 11 meshverts
        named("flare", &[0, 0]),                      // 12 effects
        face,                                         // 13 faces
        vec![0x80; 49152],                            // 14 lightmaps
        vec![9, 9, 9, 8, 8, 8, 1, 2],                 // 15 light volumes
        vec![2, 0, 0, 0, 1, 0, 0, 0, 0xc0, 0x40],     // 16 visibility
    ]
}

/// A file of the given version that holds the given lumps one after the
/// other.
fn file(version: u32, lumps: &[Vec<u8>]) -> Vec<u8> {
    let mut data = b"IBSP".to_vec();
    data.extend_from_slice(&version.to_le_bytes());
    let mut at = 8 + 8 * lumps.len();
    for lump in lumps {
        data.extend_from_slice(&(at as u32).to_le_bytes());
        data.extend_from_slice(&(lump.len() as u32).to_le_bytes());
        at += lump.len();
    }
    for lump in lumps {
        data.extend_from_slice(lump);
    }
    data
}

#[test]
fn test_basic() {
    let data = file(0x2e, &lumps());

    let _lump = BSPFile::from_buffer(&data).unwrap();
}

#[test]
fn test_clone() {
    let data = file(0x2e, &lumps());

    let orig = BSPFile::from_buffer(&data).unwrap();

    let clone1 = orig.clone();
    let clone2 = orig.clone();

    let _ = move || orig;

    assert_eq!(clone1.textures.textures[clone1.brushes.brushes[0].texture_idx].name, "textures/gothic_trim/pitted_rust\u{0}\u{0}\u{0}\u{0}\u{0}\u{0}\u{0}\u{0}\u{0}\u{0}\u{0}\u{0}\u{0}\u{0}\u{0}\u{0}\u{0}\u{0}\u{0}\u{0}\u{0}\u{0}\u{0}\u{0}\u{0}\u{0}\u{0}\u{0}\u{0}\u{0}\u{0}\u{0}");
    assert_eq!(clone2.textures.textures[clone2.brushes.brushes[0].texture_idx].name, "textures/gothic_trim/pitted_rust\u{0}\u{0}\u{0}\u{0}\u{0}\u{0}\u{0}\u{0}\u{0}\u{0}\u{0}\u{0}\u{0}\u{0}\u{0}\u{0}\u{0}\u{0}\u{0}\u{0}\u{0}\u{0}\u{0}\u{0}\u{0}\u{0}\u{0}\u{0}\u{0}\u{0}\u{0}\u{0}");
    assert_eq!(format!("{:?}", clone1), format!("{:?}", clone2));
}

#[test]
fn file_holds_every_lump() {
    let data = file(0x2e, &lumps());
    let f = BSPFile::from_buffer(&data).unwrap();

    assert_eq!(f.directory.version, 0x2e);
    assert_eq!(f.directory.dir_entries.len(), 17);
    assert_eq!(f.directory.dir_entries[0].offset, 144);

    assert_eq!(f.entities.entities.len(), 1);
    assert_eq!(f.entities.entities[0].get("classname"), Some(&"worldspawn".to_string()));
    assert_eq!(f.textures.textures.len(), 1);
    assert_eq!(f.textures.textures[0].surface.bits(), 0x200);
    assert_eq!(f.textures.textures[0].contents.bits(), 1);
    assert_eq!(f.planes.planes.len(), 1);
    assert_eq!(f.planes.planes[0].dist, Float32 { bits: 16.0f32.to_bits() });
    assert_eq!(f.planes.planes[0].complement_normal.z, Float32 { bits: (-1.0f32).to_bits() });
    assert_eq!(f.vertices.vertices.len(), 3);
    assert_eq!(f.vertices.vertices[2].color.a, 0x3f);
    assert_eq!(f.meshverts.meshverts.len(), 3);
    assert_eq!(f.meshverts.meshverts[2].offset, 2);
    assert_eq!(f.light_maps.maps.len(), 1);
    assert_eq!(f.light_maps.maps[0].map[5][6].g, 0x80);
    assert_eq!(f.light_vols.vols.len(), 1);
    assert_eq!(f.light_vols.vols[0].dir, [1, 2]);
    assert_eq!(f.visdata.vecs.len(), 2);
    assert!(f.visdata.vecs[0][0] && f.visdata.vecs[0][1] && !f.visdata.vecs[0][2]);
    assert!(!f.visdata.vecs[1][0] && f.visdata.vecs[1][1]);
    assert_eq!(f.brushes.brushes.len(), 1);
    assert_eq!(f.brushes.brushes[0].sides.len(), 1);
    assert!(f.brushes.brushes[0].sides[0].is_opposing);
    assert_eq!(f.effects.effects.len(), 1);
    assert!(f.effects.effects[0].name.starts_with("flare\0"));
    assert_eq!(f.faces.faces.len(), 1);
    assert_eq!(f.faces.faces[0].vertices_idx, 0..3);
    assert_eq!(f.tree.root.plane_idx, 1);
    let pair = f.tree.root.children.as_ref().unwrap();
    assert_eq!(pair.0.leaf.as_ref().unwrap().faces_idx, vec![0]);
    assert_eq!(pair.0.leaf.as_ref().unwrap().brushes_idx, vec![0]);
    assert_eq!(pair.1.leaf.as_ref().unwrap().cluster_id, 1);
    assert_eq!(f.models.models.len(), 1);
    assert_eq!(f.models.models[0].faces_idx, 0..1);
    assert!(f.advertisements.is_none());
}

#[test]
fn file_of_quake_live_has_advertisements() {
    let mut all = lumps();
    let mut ad = words(&[4]);
    ad.extend_from_slice(&[0u8; 124]);
    all.push(ad);
    let data = file(0x2f, &all);
    let f = BSPFile::from_buffer(&data).unwrap();
    assert_eq!(f.directory.version, 0x2f);
    assert_eq!(f.directory.dir_entries.len(), 17);
    let ads = f.advertisements.unwrap();
    assert_eq!(ads.advertisements.len(), 1);
    assert_eq!(ads.advertisements[0].cell_id, 4);

    // the lump is decoded like the others
    all[17].push(0);
    assert_eq!(
        BSPFile::from_buffer(&file(0x2f, &all)).unwrap_err(),
        Error::BadSize { req: 128 }
    );
}

#[test]
fn file_of_another_version() {
    for version in [0u32, 0x2d, 0x30, 0x2e00, 0xffff_ffff] {
        assert_eq!(
            BSPFile::from_buffer(&file(version, &lumps())).unwrap_err(),
            Error::Unsupported { version }
        );
    }
    // the version is looked at before any lump
    assert_eq!(
        BSPFile::from_buffer(&file(0x2d, &vec![vec![1u8]; 17])).unwrap_err(),
        Error::Unsupported { version: 0x2d }
    );
}

#[test]
fn file_without_header() {
    assert_eq!(BSPFile::from_buffer(&[]).unwrap_err(), Error::BadSize { req: 17 });
    let mut data = file(0x2e, &lumps());
    data[0] = b'V';
    assert_eq!(
        BSPFile::from_buffer(&data).unwrap_err(),
        Error::BadMagic { expected: *b"IBSP", actual: *b"VBSP" }
    );
}

#[test]
fn file_with_a_lump_that_leaves_it() {
    let mut data = file(0x2e, &lumps());
    let cut = data.len() - 1;
    // the last lump loses its last byte
    assert_eq!(BSPFile::from_buffer(&data[..cut]).unwrap_err(), Error::BadSize { req: 10 });
    // entry 2 points far away
    data[8 + 2 * 8..8 + 2 * 8 + 4].copy_from_slice(&0x7fff_ffffu32.to_le_bytes());
    assert_eq!(BSPFile::from_buffer(&data).unwrap_err(), Error::BadSize { req: 32 });
}

#[test]
fn file_fails_with_its_first_error() {
    // textures (read second) and vertices (read fourth) are both wrong
    let mut all = lumps();
    all[1].push(0);
    all[10].push(0);
    assert_eq!(BSPFile::from_buffer(&file(0x2e, &all)).unwrap_err(), Error::BadSize { req: 72 });
    // entities are read first
    all[0] = b"{".to_vec();
    assert_eq!(BSPFile::from_buffer(&file(0x2e, &all)).unwrap_err(), Error::BadFormat);
    // visibility is read before brushes, though its lump comes later
    let mut all = lumps();
    all[8] = words(&[0, 1, 5]);
    assert_eq!(
        BSPFile::from_buffer(&file(0x2e, &all)).unwrap_err(),
        Error::BadRef { loc: BRUSH_TEXTURE, val: 5 }
    );
    all[16] = vec![1];
    assert_eq!(BSPFile::from_buffer(&file(0x2e, &all)).unwrap_err(), Error::BadSize { req: 8 });
}

#[test]
fn file_checks_references_between_lumps() {
    // a leaf face that names a face that is not there
    let mut all = lumps();
    all[5] = words(&[1]);
    assert_eq!(
        BSPFile::from_buffer(&file(0x2e, &all)).unwrap_err(),
        Error::BadRef { loc: LEAF_FACE, val: 1 }
    );
    // without faces, what names face 0 fails as well
    let mut all = lumps();
    all[13] = Vec::new();
    assert_eq!(
        BSPFile::from_buffer(&file(0x2e, &all)).unwrap_err(),
        Error::BadRef { loc: LEAF_FACE, val: 0 }
    );
}

#[test]
fn decoded_file_points_into_itself() {
    let f = BSPFile::from_buffer(&file(0x2e, &lumps())).unwrap();
    for brush in &f.brushes.brushes {
        assert!(brush.texture_idx < f.textures.textures.len());
        for side in &brush.sides {
            assert!(side.plane_idx / 2 < f.planes.planes.len());
            assert!(side.texture_idx < f.textures.textures.len());
        }
    }
    for effect in &f.effects.effects {
        assert!(effect.brush_idx < f.brushes.brushes.len());
    }
    for face in &f.faces.faces {
        assert!(face.texture_idx < f.textures.textures.len());
        assert!(face.effect_idx.map_or(true, |i| i < f.effects.effects.len()));
        assert!(face.lightmap_idx.map_or(true, |i| i < f.light_maps.maps.len()));
        assert!(face.vertices_idx.end <= f.vertices.vertices.len());
        assert!(face.meshverts_idx.end <= f.meshverts.meshverts.len());
    }
    for model in &f.models.models {
        assert!(model.faces_idx.end <= f.faces.faces.len());
        assert!(model.brushes_idx.end <= f.brushes.brushes.len());
    }
}
