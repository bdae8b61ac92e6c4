//! Tests of the zone-chunk container: the three ciphers against
//! hand-computed keystreams, chunk framing, payload classification, and
//! the collision-mesh decode.

use dats::byte_walker::SliceByteWalker;
use dats::collision_mesh::CollisionMesh;
use dats::collision_mesh::Point3D;
use dats::collision_mesh::TriangleInfo;
use dats::error::DatError;
use dats::zone_data::decode_05;
use dats::zone_data::decode_1b;
use dats::zone_data::decode_ffff;
use dats::zone_data::Chunk;
use dats::zone_data::ChunkData;
use dats::zone_data::ZoneData;
use dats::zone_mmb::ZoneMmbTopHeader;
use dats::zone_model::ZoneCollisionMesh;

fn key_table() -> Vec<u8> {
    (0..=255u8).collect()
}

#[test]
fn scheme_a_decrypts_a_marked_body() {
    let kt = key_table();
    let input: Vec<u8> = vec![0x1E, 0x00, 0x00, 0x1B, 0x00, 0x00, 0x00, 0xFE, 0x08, 0x09, 0x0A, 0x0B, 0x0C, 0x0D, 0x0E, 0x0F, 0x10, 0x11, 0x12, 0x13, 0x14, 0x15, 0x16, 0x17, 0x18, 0x19, 0x1A, 0x1B, 0x1C, 0x1D];
    let expected: Vec<u8> = vec![0x1E, 0x00, 0x00, 0x1B, 0x00, 0x00, 0x00, 0xFE, 0xF7, 0xF6, 0xF5, 0xF4, 0xF3, 0xF2, 0xF1, 0xF0, 0xEF, 0xEE, 0xED, 0xEC, 0xEB, 0xEA, 0xE9, 0xE8, 0x18, 0x19, 0x1A, 0x1B, 0x1C, 0x1D];
    assert_eq!(decode_1b(input, &kt).unwrap(), expected);
}

#[test]
fn scheme_a_passes_unmarked_bodies_through() {
    let kt = key_table();
    let input: Vec<u8> = vec![1, 2, 3, 4, 5, 6, 7, 8];
    assert_eq!(decode_1b(input.clone(), &kt).unwrap(), input);
}

#[test]
fn scheme_b_decrypts_a_marked_body() {
    let kt = key_table();
    let input: Vec<u8> = vec![0x0C, 0x00, 0x00, 0x05, 0xAA, 0x33, 0x00, 0x00, 0x10, 0x20, 0x30, 0x40];
    let expected: Vec<u8> = vec![0x0C, 0x00, 0x00, 0x05, 0xAA, 0x33, 0x00, 0x00, 0x2C, 0x43, 0x43, 0xF1];
    assert_eq!(decode_05(input, &kt).unwrap(), expected);
}

#[test]
fn scheme_c_swaps_the_two_halves() {
    let kt = key_table();
    let input: Vec<u8> = vec![0x28, 0x00, 0x00, 0x00, 0x00, 0xF1, 0x01, 0x02, 0x08, 0x09, 0x0A, 0x0B, 0x0C, 0x0D, 0x0E, 0x0F, 0x10, 0x11, 0x12, 0x13, 0x14, 0x15, 0x16, 0x17, 0x18, 0x19, 0x1A, 0x1B, 0x1C, 0x1D, 0x1E, 0x1F, 0x20, 0x21, 0x22, 0x23, 0x24, 0x25, 0x26, 0x27];
    let expected: Vec<u8> = vec![0x28, 0x00, 0x00, 0x00, 0x00, 0xF1, 0x01, 0x02, 0x18, 0x19, 0x1A, 0x1B, 0x1C, 0x1D, 0x1E, 0x1F, 0x20, 0x21, 0x22, 0x23, 0x24, 0x25, 0x26, 0x27, 0x08, 0x09, 0x0A, 0x0B, 0x0C, 0x0D, 0x0E, 0x0F, 0x10, 0x11, 0x12, 0x13, 0x14, 0x15, 0x16, 0x17];
    assert_eq!(decode_ffff(input, &kt).unwrap(), expected);
}

#[test]
fn scheme_c_marker_makes_it_the_identity() {
    let kt = key_table();
    let mut input: Vec<u8> = (0..64u8).collect();
    input[6] = 0xFF;
    input[7] = 0xFF;
    assert_eq!(decode_ffff(input.clone(), &kt).unwrap(), input);
}

#[test]
fn short_chunk_bodies_are_always_unknown() {
    let kt = key_table();
    for chunk_type in [0x1Cu8, 0x2E, 0x20, 0x00] {
        let bytes: Vec<u8> = vec![9, 8, 7, 6, 5];
        let mut walker = SliceByteWalker::new(&bytes);
        let r = ChunkData::parse(&mut walker, chunk_type, 5, &kt).unwrap();
        match r {
            ChunkData::Unknown { data } => assert_eq!(data, vec![9, 8, 7, 6, 5]),
            _ => panic!("a five-byte chunk must stay unknown"),
        }
    }
}

#[test]
fn unrecognized_chunk_types_keep_their_bytes() {
    let kt = key_table();
    let bytes: Vec<u8> = (0..16u8).collect();
    let mut walker = SliceByteWalker::new(&bytes);
    let r = ChunkData::parse(&mut walker, 0x20, 16, &kt).unwrap();
    match r {
        ChunkData::Unknown { data } => assert_eq!(data, bytes),
        _ => panic!("unrecognized types must stay unknown"),
    }
}

#[test]
fn chunk_framing_unpacks_type_and_length() {
    let kt = key_table();
    let bytes: Vec<u8> = vec![0x41, 0x42, 0x43, 0x44, 0x20, 0x01, 0x00, 0x00, 0x11, 0x11, 0x11, 0x11, 0x22, 0x22, 0x22, 0x22, 0x00, 0x01, 0x02, 0x03, 0x04, 0x05, 0x06, 0x07, 0x08, 0x09, 0x0A, 0x0B, 0x0C, 0x0D, 0x0E, 0x0F];
    let mut walker = SliceByteWalker::new(&bytes);
    let chunk = Chunk::parse(&mut walker, &kt).unwrap();
    assert_eq!(chunk.four_char_code, vec![0x41, 0x42, 0x43, 0x44]);
    assert_eq!(chunk.chunk_type, 0x20);
    assert_eq!(chunk.unknown_0x08, 0x11111111);
    assert_eq!(chunk.unknown_0x12, 0x22222222);
    match chunk.data {
        ChunkData::Unknown { data } => assert_eq!(data.len(), 16),
        _ => panic!("type 0x20 must stay unknown"),
    }
    assert_eq!(walker.offset(), bytes.len());
}

#[test]
fn invalid_tag_text_is_rejected() {
    let kt = key_table();
    let bytes: Vec<u8> = vec![0xFF, 0xFF, 0xFF, 0xFF, 0, 0, 0, 0];
    let mut walker = SliceByteWalker::new(&bytes);
    let r = Chunk::parse(&mut walker, &kt);
    assert!(matches!(r, Err(DatError::InvalidTag { .. })));
}

#[test]
fn negative_chunk_length_is_rejected() {
    let kt = key_table();
    let mut bytes: Vec<u8> = vec![0x41, 0x42, 0x43, 0x44];
    bytes.extend_from_slice(&[0x20, 0, 0, 0]);
    bytes.extend_from_slice(&[0, 0, 0, 0, 0, 0, 0, 0]);
    let mut walker = SliceByteWalker::new(&bytes);
    let r = Chunk::parse(&mut walker, &kt);
    assert!(matches!(r, Err(DatError::InvalidChunkLength { .. })));
}

#[test]
fn zone_data_collects_chunks_and_reports_missing_models() {
    let kt = key_table();
    let bytes: Vec<u8> = vec![0x41, 0x42, 0x43, 0x44, 0x20, 0x01, 0x00, 0x00, 0x11, 0x11, 0x11, 0x11, 0x22, 0x22, 0x22, 0x22, 0x00, 0x01, 0x02, 0x03, 0x04, 0x05, 0x06, 0x07, 0x08, 0x09, 0x0A, 0x0B, 0x0C, 0x0D, 0x0E, 0x0F];
    let mut walker = SliceByteWalker::new(&bytes);
    let zone = ZoneData::parse(&mut walker, &kt).unwrap();
    assert_eq!(zone.chunks.len(), 1);
    let r = ZoneCollisionMesh::parse_from_zone_data(&zone);
    assert_eq!(r.unwrap_err(), DatError::NoZoneModel);
}

#[test]
fn collision_mesh_decodes_grid_entries() {
    let bytes: Vec<u8> = vec![0x04, 0x00, 0x00, 0x00, 0x99, 0x00, 0x00, 0x00, 0x18, 0x00, 0x00, 0x00, 0x58, 0x00, 0x00, 0x00, 0x00, 0x00, 0x00, 0x00, 0x00, 0x00, 0x00, 0x00, 0x00, 0x00, 0x00, 0x00, 0x01, 0x00, 0x00, 0x00, 0x02, 0x00, 0x00, 0x00, 0x03, 0x00, 0x00, 0x00, 0x04, 0x00, 0x00, 0x00, 0x05, 0x00, 0x00, 0x00, 0x06, 0x00, 0x00, 0x00, 0x07, 0x00, 0x00, 0x00, 0x08, 0x00, 0x00, 0x00, 0x09, 0x00, 0x00, 0x00, 0x0A, 0x00, 0x00, 0x00, 0x0B, 0x00, 0x00, 0x00, 0x0C, 0x00, 0x00, 0x00, 0x0D, 0x00, 0x00, 0x00, 0x0E, 0x00, 0x00, 0x00, 0x0F, 0x00, 0x00, 0x00, 0x68, 0x00, 0x00, 0x00, 0x74, 0x00, 0x00, 0x00, 0x80, 0x00, 0x00, 0x00, 0x01, 0x00, 0x07, 0x00, 0x01, 0x00, 0x00, 0x00, 0x01, 0x00, 0x00, 0x80, 0x03, 0x00, 0x00, 0x00, 0x05, 0x00, 0x00, 0x00, 0x06, 0x00, 0x00, 0x00, 0x07, 0x00, 0x00, 0x00, 0x01, 0x40, 0x02, 0x00, 0x03, 0x00, 0x04, 0xC0];
    let walker = SliceByteWalker::new(&bytes);
    let mesh = CollisionMesh::parse(&walker, 0, 1, 1).unwrap();
    assert_eq!(mesh.grid_entries.len(), 1);
    let ge = &mesh.grid_entries[0];
    assert_eq!(ge.info_entry, 0x99);
    assert_eq!(ge.mesh_entries.len(), 1);
    let me = &ge.mesh_entries[0];
    assert_eq!(me.flags, 7);
    assert_eq!(me.matrix, (0..16u32).collect::<Vec<u32>>());
    assert_eq!(me.vertices, vec![Point3D { x: 1, y: 0x80000001, z: 3 }]);
    assert_eq!(me.normals, vec![Point3D { x: 5, y: 0x80000006, z: 7 }]);
    assert_eq!(
        me.triangles,
        vec![TriangleInfo { vertex1_idx: 1, vertex2_idx: 2, vertex3_idx: 3, normal_idx: 4 }]
    );
}

#[test]
fn triangle_indices_stay_below_the_mask() {
    let bytes: Vec<u8> = vec![0x04, 0x00, 0x00, 0x00, 0x99, 0x00, 0x00, 0x00, 0x18, 0x00, 0x00, 0x00, 0x58, 0x00, 0x00, 0x00, 0x00, 0x00, 0x00, 0x00, 0x00, 0x00, 0x00, 0x00, 0x00, 0x00, 0x00, 0x00, 0x01, 0x00, 0x00, 0x00, 0x02, 0x00, 0x00, 0x00, 0x03, 0x00, 0x00, 0x00, 0x04, 0x00, 0x00, 0x00, 0x05, 0x00, 0x00, 0x00, 0x06, 0x00, 0x00, 0x00, 0x07, 0x00, 0x00, 0x00, 0x08, 0x00, 0x00, 0x00, 0x09, 0x00, 0x00, 0x00, 0x0A, 0x00, 0x00, 0x00, 0x0B, 0x00, 0x00, 0x00, 0x0C, 0x00, 0x00, 0x00, 0x0D, 0x00, 0x00, 0x00, 0x0E, 0x00, 0x00, 0x00, 0x0F, 0x00, 0x00, 0x00, 0x68, 0x00, 0x00, 0x00, 0x74, 0x00, 0x00, 0x00, 0x80, 0x00, 0x00, 0x00, 0x01, 0x00, 0x07, 0x00, 0x01, 0x00, 0x00, 0x00, 0x01, 0x00, 0x00, 0x80, 0x03, 0x00, 0x00, 0x00, 0x05, 0x00, 0x00, 0x00, 0x06, 0x00, 0x00, 0x00, 0x07, 0x00, 0x00, 0x00, 0x01, 0x40, 0x02, 0x00, 0x03, 0x00, 0x04, 0xC0];
    let walker = SliceByteWalker::new(&bytes);
    let mesh = CollisionMesh::parse(&walker, 0, 1, 1).unwrap();
    for ge in &mesh.grid_entries {
        for me in &ge.mesh_entries {
            for t in &me.triangles {
                assert!(t.vertex1_idx < 0x4000);
                assert!(t.vertex2_idx < 0x4000);
                assert!(t.vertex3_idx < 0x4000);
                assert!(t.normal_idx < 0x4000);
            }
        }
    }
}

#[test]
fn out_of_grid_cells_are_never_visited() {
    let bytes: Vec<u8> = vec![0x04, 0x00, 0x00, 0x00, 0x99, 0x00, 0x00, 0x00, 0x18, 0x00, 0x00, 0x00, 0x58, 0x00, 0x00, 0x00, 0x00, 0x00, 0x00, 0x00, 0x00, 0x00, 0x00, 0x00, 0x00, 0x00, 0x00, 0x00, 0x01, 0x00, 0x00, 0x00, 0x02, 0x00, 0x00, 0x00, 0x03, 0x00, 0x00, 0x00, 0x04, 0x00, 0x00, 0x00, 0x05, 0x00, 0x00, 0x00, 0x06, 0x00, 0x00, 0x00, 0x07, 0x00, 0x00, 0x00, 0x08, 0x00, 0x00, 0x00, 0x09, 0x00, 0x00, 0x00, 0x0A, 0x00, 0x00, 0x00, 0x0B, 0x00, 0x00, 0x00, 0x0C, 0x00, 0x00, 0x00, 0x0D, 0x00, 0x00, 0x00, 0x0E, 0x00, 0x00, 0x00, 0x0F, 0x00, 0x00, 0x00, 0x68, 0x00, 0x00, 0x00, 0x74, 0x00, 0x00, 0x00, 0x80, 0x00, 0x00, 0x00, 0x01, 0x00, 0x07, 0x00, 0x01, 0x00, 0x00, 0x00, 0x01, 0x00, 0x00, 0x80, 0x03, 0x00, 0x00, 0x00, 0x05, 0x00, 0x00, 0x00, 0x06, 0x00, 0x00, 0x00, 0x07, 0x00, 0x00, 0x00, 0x01, 0x40, 0x02, 0x00, 0x03, 0x00, 0x04, 0xC0];
    let walker = SliceByteWalker::new(&bytes);
    let empty = CollisionMesh::parse(&walker, 0, 0, 0).unwrap();
    assert_eq!(empty.grid_entries.len(), 0);
}

#[test]
fn zero_determinant_leaves_winding_unchanged() {
    let tris = vec![
        TriangleInfo { vertex1_idx: 1, vertex2_idx: 2, vertex3_idx: 3, normal_idx: 4 },
        TriangleInfo { vertex1_idx: 5, vertex2_idx: 6, vertex3_idx: 7, normal_idx: 8 },
    ];
    let determinant = 0.0f32;
    let corrected = CollisionMesh::winding_corrected(&tris, determinant > 0.0);
    assert_eq!(corrected, tris);
}

#[test]
fn positive_determinant_swaps_winding() {
    let tris = vec![TriangleInfo { vertex1_idx: 1, vertex2_idx: 2, vertex3_idx: 3, normal_idx: 4 }];
    let corrected = CollisionMesh::winding_corrected(&tris, true);
    assert_eq!(
        corrected,
        vec![TriangleInfo { vertex1_idx: 3, vertex2_idx: 2, vertex3_idx: 1, normal_idx: 4 }]
    );
}

#[test]
fn mmb_top_header_reports_its_shape() {
    let t1 = ZoneMmbTopHeader::Type1 {
        mmb_type: 0,
        next: 3,
        first_u32: 3,
        second_u32: 0,
        third_u32: 0,
    };
    assert_eq!(t1.get_size(), 48);
    assert!(!t1.has_d_values());
    assert!(t1.has_triangle_list());
    let t2 = ZoneMmbTopHeader::Type2 {
        len: 100,
        d1: 0,
        d3: 2,
        d4: 0,
        d5: 0,
        d6: 0,
        unknown_0x08: 0,
        unknown_0x12: 0,
    };
    assert_eq!(t2.get_size(), 100);
    assert!(t2.has_d_values());
    assert!(t2.has_triangle_list());
}

#[test]
fn zone_data() {
    let kt = key_table();
    let mut bytes: Vec<u8> = vec![0x4D, 0x5A, 0x42, 0x20, 0x9C, 0x02, 0x00, 0x00, 0x01, 0x00, 0x00, 0x00, 0x02, 0x00, 0x00, 0x00, 0x00, 0x00, 0x00, 0x00, 0x00, 0x00, 0x00, 0x00, 0x1C, 0x00, 0x00, 0x00, 0x01, 0x01, 0x00, 0x00, 0x00, 0x00, 0x00, 0x00, 0x00, 0x00, 0x00, 0x00, 0x00, 0x00, 0x00, 0x00, 0x03, 0x00, 0x00, 0x00, 0x00, 0x00, 0x00, 0x00, 0x00, 0x00, 0x00, 0x00, 0x00, 0x00, 0x00, 0x00, 0x40, 0x00, 0x00, 0x00, 0x00, 0x00, 0x00, 0x00, 0x00, 0x00, 0x00, 0x00, 0x00, 0x00, 0x00, 0x00, 0x00, 0x00, 0x00, 0x00];
    bytes.extend_from_slice(&vec![0x4D, 0x4D, 0x42, 0x20, 0x2E, 0x06, 0x00, 0x00, 0x00, 0x00, 0x00, 0x00, 0x00, 0x00, 0x00, 0x00, 0xB0, 0x00, 0x00, 0x00, 0x00, 0x00, 0xFF, 0xFF, 0x00, 0x00, 0x00, 0x00, 0x00, 0x00, 0x00, 0x00, 0x41, 0x41, 0x41, 0x41, 0x41, 0x41, 0x41, 0x41, 0x41, 0x41, 0x41, 0x41, 0x41, 0x41, 0x41, 0x41, 0x00, 0x00, 0x00, 0x00, 0x00, 0x00, 0x00, 0x00, 0x00, 0x00, 0x00, 0x00, 0x00, 0x00, 0x00, 0x00, 0x00, 0x00, 0x00, 0x00, 0x00, 0x00, 0x00, 0x00, 0x00, 0x00, 0x00, 0x00, 0x00, 0x00, 0x00, 0x00, 0x01, 0x00, 0x00, 0x00, 0x00, 0x00, 0x00, 0x00, 0x00, 0x00, 0x00, 0x00, 0x00, 0x00, 0x00, 0x00, 0x00, 0x00, 0x00, 0x00, 0x00, 0x00, 0x00, 0x00, 0x00, 0x00, 0x00, 0x00, 0x09, 0x00, 0x00, 0x00, 0x54, 0x54, 0x54, 0x54, 0x54, 0x54, 0x54, 0x54, 0x54, 0x54, 0x54, 0x54, 0x54, 0x54, 0x54, 0x54, 0x01, 0x00, 0x00, 0x00, 0x00, 0x00, 0x00, 0x00, 0x00, 0x00, 0x00, 0x00, 0x00, 0x00, 0x00, 0x00, 0x00, 0x00, 0x00, 0x00, 0x00, 0x00, 0x00, 0x00, 0x00, 0x00, 0x00, 0x00, 0x00, 0x00, 0x00, 0x00, 0x00, 0x00, 0x00, 0x00, 0x00, 0x00, 0x00, 0x00, 0x02, 0x00, 0x00, 0x00, 0x05, 0x00, 0x01, 0x00, 0x07, 0x00, 0x00, 0x00, 0x00, 0x00, 0x00, 0x00, 0x00, 0x00, 0x00, 0x00, 0x00, 0x00, 0x00, 0x00]);
    let mut walker = SliceByteWalker::new(&bytes);
    let zone = ZoneData::parse(&mut walker, &kt).unwrap();
    assert_eq!(zone.chunks.len(), 2);
    assert_eq!(zone.chunks[0].chunk_type, 0x1C);
    assert_eq!(zone.chunks[1].chunk_type, 0x2E);
}

#[test]
fn zone_model() {
    let kt = key_table();
    let bytes: Vec<u8> = vec![0x4D, 0x5A, 0x42, 0x20, 0x9C, 0x02, 0x00, 0x00, 0x01, 0x00, 0x00, 0x00, 0x02, 0x00, 0x00, 0x00, 0x00, 0x00, 0x00, 0x00, 0x00, 0x00, 0x00, 0x00, 0x1C, 0x00, 0x00, 0x00, 0x01, 0x01, 0x00, 0x00, 0x00, 0x00, 0x00, 0x00, 0x00, 0x00, 0x00, 0x00, 0x00, 0x00, 0x00, 0x00, 0x03, 0x00, 0x00, 0x00, 0x00, 0x00, 0x00, 0x00, 0x00, 0x00, 0x00, 0x00, 0x00, 0x00, 0x00, 0x00, 0x40, 0x00, 0x00, 0x00, 0x00, 0x00, 0x00, 0x00, 0x00, 0x00, 0x00, 0x00, 0x00, 0x00, 0x00, 0x00, 0x00, 0x00, 0x00, 0x00];
    let mut walker = SliceByteWalker::new(&bytes);
    let zone = ZoneData::parse(&mut walker, &kt).unwrap();
    let zone_model = ZoneCollisionMesh::parse_from_zone_data(&zone).unwrap();
    assert_eq!(zone_model.mesh_offset, 28);
    assert_eq!(zone_model.grid_width, 10);
    assert_eq!(zone_model.grid_height, 10);
    assert_eq!(zone_model.mesh_model_count, 3);
    assert_eq!(zone_model.grid_offset, 64);
    assert!(zone_model.unknown_data.is_empty());
    assert!(zone_model.collision_mesh.grid_entries.is_empty());
}

#[test]
fn zone_mmb() {
    let kt = key_table();
    let bytes: Vec<u8> = vec![0x4D, 0x4D, 0x42, 0x20, 0x2E, 0x06, 0x00, 0x00, 0x00, 0x00, 0x00, 0x00, 0x00, 0x00, 0x00, 0x00, 0xB0, 0x00, 0x00, 0x00, 0x00, 0x00, 0xFF, 0xFF, 0x00, 0x00, 0x00, 0x00, 0x00, 0x00, 0x00, 0x00, 0x41, 0x41, 0x41, 0x41, 0x41, 0x41, 0x41, 0x41, 0x41, 0x41, 0x41, 0x41, 0x41, 0x41, 0x41, 0x41, 0x00, 0x00, 0x00, 0x00, 0x00, 0x00, 0x00, 0x00, 0x00, 0x00, 0x00, 0x00, 0x00, 0x00, 0x00, 0x00, 0x00, 0x00, 0x00, 0x00, 0x00, 0x00, 0x00, 0x00, 0x00, 0x00, 0x00, 0x00, 0x00, 0x00, 0x00, 0x00, 0x01, 0x00, 0x00, 0x00, 0x00, 0x00, 0x00, 0x00, 0x00, 0x00, 0x00, 0x00, 0x00, 0x00, 0x00, 0x00, 0x00, 0x00, 0x00, 0x00, 0x00, 0x00, 0x00, 0x00, 0x00, 0x00, 0x00, 0x00, 0x09, 0x00, 0x00, 0x00, 0x54, 0x54, 0x54, 0x54, 0x54, 0x54, 0x54, 0x54, 0x54, 0x54, 0x54, 0x54, 0x54, 0x54, 0x54, 0x54, 0x01, 0x00, 0x00, 0x00, 0x00, 0x00, 0x00, 0x00, 0x00, 0x00, 0x00, 0x00, 0x00, 0x00, 0x00, 0x00, 0x00, 0x00, 0x00, 0x00, 0x00, 0x00, 0x00, 0x00, 0x00, 0x00, 0x00, 0x00, 0x00, 0x00, 0x00, 0x00, 0x00, 0x00, 0x00, 0x00, 0x00, 0x00, 0x00, 0x00, 0x02, 0x00, 0x00, 0x00, 0x05, 0x00, 0x01, 0x00, 0x07, 0x00, 0x00, 0x00, 0x00, 0x00, 0x00, 0x00, 0x00, 0x00, 0x00, 0x00, 0x00, 0x00, 0x00, 0x00];
    let mut walker = SliceByteWalker::new(&bytes);
    let zone = ZoneData::parse(&mut walker, &kt).unwrap();
    match &zone.chunks[0].data {
        ChunkData::ZoneMmb { zone_mmb } => {
            assert!(matches!(zone_mmb.top_header, ZoneMmbTopHeader::Type2 { .. }));
            assert_eq!(zone_mmb.models_list.len(), 1);
            assert_eq!(zone_mmb.models_list[0].len(), 1);
            let model = &zone_mmb.models_list[0][0];
            assert_eq!(model.vertex_count, 1);
            assert_eq!(model.vertices.len(), 1);
            assert_eq!(model.index_count, 2);
            assert_eq!(model.indices, vec![5, 7]);
        },
        _ => panic!("the vertex-model chunk should decode"),
    }
}

#[test]
fn failed_zone_model_payload_degrades_to_unknown() {
    let kt = key_table();
    // A sixteen-byte body without the scheme A marker whose zone-model
    // header is invalid (mesh offset zero): the container keeps the raw
    // body instead of failing.
    let body: Vec<u8> = (0..16u8).collect();
    let mut walker = SliceByteWalker::new(&body);
    let r = ChunkData::parse(&mut walker, 0x1C, 16, &kt).unwrap();
    match r {
        ChunkData::Unknown { data } => assert_eq!(data, body),
        _ => panic!("a failed zone-model parse must degrade to unknown"),
    }
}
