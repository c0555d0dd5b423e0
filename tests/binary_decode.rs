use xps_loader::bin_ops::{decode_u16, decode_u32, Endian};
use xps_loader::binary::{decode_bytes, read_meshes, read_xps_model, round_to_multiple};
use xps_loader::error_types::XpsError;
use xps_loader::file_input::FileStream;
use xps_loader::types::{Header, ImportParameters, Real};

fn put_u16(b: &mut Vec<u8>, v: u16) {
    b.extend_from_slice(&v.to_le_bytes());
}

fn put_u32(b: &mut Vec<u8>, v: u32) {
    b.extend_from_slice(&v.to_le_bytes());
}

fn put_f32(b: &mut Vec<u8>, v: f32) {
    b.extend_from_slice(&v.to_le_bytes());
}

fn put_str(b: &mut Vec<u8>, s: &str) {
    let n = s.len();
    if n < 128 {
        b.push(n as u8);
    } else {
        b.push((n % 128 + 128) as u8);
        b.push((n / 128) as u8);
    }
    b.extend_from_slice(s.as_bytes());
}

/// A current-era header with an empty option list.
fn header(b: &mut Vec<u8>, mayor: u16, minor: u16) {
    put_u32(b, 323232);
    put_u16(b, mayor);
    put_u16(b, minor);
    put_str(b, "XNAaraL");
    put_u32(b, 2);
    put_str(b, "machine");
    put_str(b, "user");
    put_str(b, "file");
    if mayor <= 1 && minor <= 12 {
        put_u32(b, 0);
        put_u32(b, 0);
    } else {
        put_u32(b, 0);
        put_u32(b, 0);
    }
}

fn root_bone(b: &mut Vec<u8>) {
    put_u32(b, 1);
    put_str(b, "root");
    put_u16(b, (-1i16) as u16);
    put_f32(b, 0.0);
    put_f32(b, 0.0);
    put_f32(b, 0.0);
}

fn vertex(b: &mut Vec<u8>, uvs: &[(f32, f32)], tangent: bool, bones: bool) {
    for v in [1.0f32, 2.0, 3.0, 0.0, 1.0, 0.0] {
        put_f32(b, v);
    }
    b.extend_from_slice(&[10, 20, 30, 255]);
    for (u, v) in uvs {
        put_f32(b, *u);
        put_f32(b, *v);
        if tangent {
            for _ in 0..4 {
                put_f32(b, 9.0);
            }
        }
    }
    if bones {
        for id in [0u16, 1, 2, 3] {
            put_u16(b, id);
        }
        for w in [1.0f32, 0.0, 0.0, 0.0] {
            put_f32(b, w);
        }
    }
}

fn params(flip_uv: bool, reverse_winding: bool) -> ImportParameters {
    ImportParameters { flip_uv, reverse_winding }
}

fn bits(r: &Real) -> u32 {
    match r {
        Real::Bits(b) => *b,
        _ => panic!("not a bit pattern"),
    }
}

#[test]
fn end_to_end_single_bone_single_vertex() {
    let mut b = Vec::new();
    header(&mut b, 2, 15);
    root_bone(&mut b);
    put_u32(&mut b, 1);
    put_str(&mut b, "body");
    put_u32(&mut b, 0);
    put_u32(&mut b, 0);
    put_u32(&mut b, 1);
    vertex(&mut b, &[], false, true);
    put_u32(&mut b, 0);
    let m = read_xps_model(b, Endian::Little, params(false, false)).unwrap();
    assert_eq!(m.bones.len(), 1);
    assert_eq!(m.bones[0].name, "root");
    assert_eq!(m.bones[0].parent_id, -1);
    assert_eq!(m.bones[0].id, 0);
    assert_eq!(m.meshes.len(), 1);
    assert_eq!(m.meshes[0].vertices.len(), 1);
    assert_eq!(m.meshes[0].name, "body");
    assert_eq!(m.meshes[0].vertices[0].color, [10, 20, 30, 255]);
    assert_eq!(bits(&m.meshes[0].vertices[0].position[1]), 2.0f32.to_bits());
    assert_eq!(m.meshes[0].vertices[0].bone_weights[1].id, 1);
    assert_eq!(m.error, XpsError::NoError);
    assert_eq!(m.header.version_mayor, 2);
    assert_eq!(m.header.version_minor, 15);
    assert_eq!(m.header.aral, "XNAaraL");
    assert_eq!(m.header.machine, "machine");
    assert_eq!(m.header.user, "user");
    assert_eq!(m.header.file, "file");
}

fn one_triangle(reverse: bool) -> Vec<u32> {
    let mut b = Vec::new();
    header(&mut b, 2, 15);
    put_u32(&mut b, 0);
    put_u32(&mut b, 1);
    put_str(&mut b, "");
    put_u32(&mut b, 0);
    put_u32(&mut b, 0);
    put_u32(&mut b, 0);
    put_u32(&mut b, 1);
    put_u32(&mut b, 5);
    put_u32(&mut b, 7);
    put_u32(&mut b, 9);
    let m = read_xps_model(b, Endian::Little, params(false, reverse)).unwrap();
    assert_eq!(m.meshes[0].name, "unnamed");
    m.meshes[0].faces.clone()
}

#[test]
fn triangle_winding_kept() {
    assert_eq!(one_triangle(false), vec![5, 7, 9]);
}

#[test]
fn triangle_winding_reversed() {
    assert_eq!(one_triangle(true), vec![5, 9, 7]);
}

fn uv_mesh(flip: bool, mayor: u16, minor: u16) -> xps_loader::types::Data {
    let mut b = Vec::new();
    header(&mut b, mayor, minor);
    put_u32(&mut b, 0);
    put_u32(&mut b, 1);
    put_str(&mut b, "m");
    put_u32(&mut b, 1);
    put_u32(&mut b, 0);
    put_u32(&mut b, 2);
    vertex(&mut b, &[(0.25, 0.3)], mayor <= 1 && minor <= 12, false);
    vertex(&mut b, &[(0.5, 0.75)], mayor <= 1 && minor <= 12, false);
    put_u32(&mut b, 0);
    read_xps_model(b, Endian::Little, params(flip, false)).unwrap()
}

#[test]
fn uv_flip_exposes_one_minus_v() {
    let m = uv_mesh(true, 2, 15);
    let uv = &m.meshes[0].vertices[0].uv[0];
    assert!(uv.flip_v);
    assert_eq!(bits(&uv.v), 0.3f32.to_bits());
    let exposed = 1.0f32 - f32::from_bits(bits(&uv.v));
    assert!((exposed - 0.7).abs() < 1e-6);
}

#[test]
fn uv_without_flip_keeps_v() {
    let m = uv_mesh(false, 2, 15);
    let uv = &m.meshes[0].vertices[0].uv[0];
    assert!(!uv.flip_v);
    assert_eq!(f32::from_bits(bits(&uv.v)), 0.3);
    assert_eq!(m.meshes[0].uv_count, 1);
}

#[test]
fn tangent_era_skips_four_floats_per_layer() {
    let m = uv_mesh(false, 1, 12);
    assert_eq!(m.meshes[0].vertices.len(), 2);
    let uv = &m.meshes[0].vertices[1].uv[0];
    assert_eq!(f32::from_bits(bits(&uv.u)), 0.5);
    assert_eq!(f32::from_bits(bits(&uv.v)), 0.75);
    let w = &m.meshes[0].vertices[1].bone_weights[0];
    assert_eq!(w.id, 0);
    assert_eq!(bits(&w.weight), 0);
}

#[test]
fn bad_magic_is_invalid_header() {
    let mut b = Vec::new();
    put_u32(&mut b, 1234);
    b.extend_from_slice(&[0; 40]);
    assert!(matches!(read_xps_model(b, Endian::Little, params(false, false)), Err(XpsError::InvalidHeader)));
}

#[test]
fn empty_source_is_invalid_header() {
    assert!(matches!(read_xps_model(Vec::new(), Endian::Little, params(false, false)), Err(XpsError::InvalidHeader)));
}

#[test]
fn truncated_file_degrades_to_zero_counts() {
    let mut b = Vec::new();
    header(&mut b, 2, 15);
    let m = read_xps_model(b, Endian::Little, params(false, false)).unwrap();
    assert_eq!(m.bones.len(), 0);
    assert_eq!(m.meshes.len(), 0);
}

#[test]
fn texture_names_lose_their_directory() {
    let mut b = Vec::new();
    header(&mut b, 2, 15);
    put_u32(&mut b, 0);
    put_u32(&mut b, 1);
    put_str(&mut b, "m");
    put_u32(&mut b, 1);
    put_u32(&mut b, 2);
    put_str(&mut b, "textures/skin.png");
    put_u32(&mut b, 0);
    put_str(&mut b, "hair.png");
    put_u32(&mut b, 3);
    put_u32(&mut b, 0);
    put_u32(&mut b, 0);
    let m = read_xps_model(b, Endian::Little, params(false, false)).unwrap();
    let t = &m.meshes[0].textures;
    assert_eq!(t[0].file, "skin.png");
    assert_eq!(t[0].id, 0);
    assert_eq!(t[1].file, "hair.png");
    assert_eq!(t[1].id, 1);
    assert_eq!(t[1].uv_layer, 3);
}

#[test]
fn empty_texture_name_fails_the_mesh_section() {
    let mut b = Vec::new();
    header(&mut b, 2, 15);
    put_u32(&mut b, 0);
    put_u32(&mut b, 1);
    put_str(&mut b, "m");
    put_u32(&mut b, 1);
    put_u32(&mut b, 1);
    put_str(&mut b, "");
    put_u32(&mut b, 0);
    put_u32(&mut b, 0);
    put_u32(&mut b, 0);
    assert!(matches!(read_xps_model(b, Endian::Little, params(false, false)), Err(XpsError::MeshReadBin)));
}

#[test]
fn read_meshes_reports_path_error() {
    let mut b = Vec::new();
    put_u32(&mut b, 1);
    put_str(&mut b, "m");
    put_u32(&mut b, 0);
    put_u32(&mut b, 1);
    put_str(&mut b, "");
    put_u32(&mut b, 0);
    let mut f = FileStream::new(b, Endian::Little);
    let h = Header::default();
    assert!(matches!(read_meshes(&mut f, &h, false, params(false, false)), Err(XpsError::PathGetParent)));
}

#[test]
fn pose_option_fills_header_pose() {
    let mut b = Vec::new();
    put_u32(&mut b, 323232);
    put_u16(&mut b, 2);
    put_u16(&mut b, 15);
    put_str(&mut b, "XNAaraL");
    put_u32(&mut b, 10);
    put_str(&mut b, "");
    put_str(&mut b, "");
    put_str(&mut b, "");
    let pose = "spine:1 2 3\n";
    put_u32(&mut b, 0);
    put_u32(&mut b, 2);
    put_u32(&mut b, 1);
    put_u32(&mut b, pose.len() as u32);
    put_u32(&mut b, 1);
    b.extend_from_slice(pose.as_bytes());
    put_u32(&mut b, 255);
    put_u32(&mut b, 1);
    put_u32(&mut b, 0);
    put_u32(&mut b, 77);
    root_bone(&mut b);
    put_u32(&mut b, 0);
    let m = read_xps_model(b, Endian::Little, params(false, false)).unwrap();
    assert_eq!(m.header.pose, pose);
    assert_eq!(m.header.poses.len(), 1);
    assert_eq!(m.header.poses[0].name, "spine");
    assert_eq!(bits_or_text(&m.header.poses[0].rotation_delta[0]), "1");
    assert_eq!(m.bones.len(), 1);
    assert_eq!(m.bones[0].name, "root");
}

#[test]
fn unknown_option_consumes_rest_of_block() {
    let mut b = Vec::new();
    put_u32(&mut b, 323232);
    put_u16(&mut b, 2);
    put_u16(&mut b, 15);
    put_str(&mut b, "XNAaraL");
    put_u32(&mut b, 8);
    put_str(&mut b, "");
    put_str(&mut b, "");
    put_str(&mut b, "");
    put_u32(&mut b, 0);
    put_u32(&mut b, 2);
    put_u32(&mut b, 7);
    put_u32(&mut b, 0);
    put_u32(&mut b, 0);
    for _ in 0..3 {
        put_u32(&mut b, 0xdead);
    }
    root_bone(&mut b);
    put_u32(&mut b, 0);
    let m = read_xps_model(b, Endian::Little, params(false, false)).unwrap();
    assert_eq!(m.bones.len(), 1);
    assert_eq!(m.bones[0].name, "root");
}

#[test]
fn legacy_header_skips_declared_words() {
    let mut b = Vec::new();
    put_u32(&mut b, 323232);
    put_u16(&mut b, 1);
    put_u16(&mut b, 10);
    put_str(&mut b, "XNAaraL");
    put_u32(&mut b, 3);
    put_str(&mut b, "");
    put_str(&mut b, "");
    put_str(&mut b, "");
    b.extend_from_slice(&[0xff; 12]);
    root_bone(&mut b);
    put_u32(&mut b, 0);
    let m = read_xps_model(b, Endian::Little, params(false, false)).unwrap();
    assert_eq!(m.header.settings_length, 3);
    assert_eq!(m.bones[0].name, "root");
}

#[test]
fn long_string_uses_two_length_bytes() {
    let name: String = std::iter::repeat('a').take(300).collect();
    let mut b = Vec::new();
    header(&mut b, 2, 15);
    put_u32(&mut b, 1);
    put_str(&mut b, &name);
    put_u16(&mut b, 0);
    for _ in 0..3 {
        put_f32(&mut b, 1.5);
    }
    put_u32(&mut b, 0);
    let m = read_xps_model(b, Endian::Little, params(false, false)).unwrap();
    assert_eq!(m.bones[0].name, name);
    assert_eq!(f32::from_bits(bits(&m.bones[0].co[2])), 1.5);
}

fn bits_or_text(r: &Real) -> String {
    match r {
        Real::Decimal(s) => s.clone(),
        Real::Bits(b) => format!("bits {}", b),
        Real::NotANumber => "NaN".to_string(),
    }
}

#[test]
fn root_texture_path_has_no_parent() {
    let mut b = Vec::new();
    header(&mut b, 2, 15);
    put_u32(&mut b, 0);
    put_u32(&mut b, 1);
    put_str(&mut b, "m");
    put_u32(&mut b, 1);
    put_u32(&mut b, 1);
    put_str(&mut b, "/");
    put_u32(&mut b, 0);
    put_u32(&mut b, 0);
    put_u32(&mut b, 0);
    assert!(matches!(read_xps_model(b, Endian::Little, params(false, false)), Err(XpsError::MeshReadBin)));
}

#[test]
fn round_to_multiple_near_the_top() {
    assert_eq!(round_to_multiple(usize::MAX - 3, 4), usize::MAX - 3);
    assert_eq!(round_to_multiple(usize::MAX - 5, 4), usize::MAX - 3);
}

#[test]
fn round_to_multiple_values() {
    assert_eq!(round_to_multiple(5, 4), 8);
    assert_eq!(round_to_multiple(8, 4), 8);
    assert_eq!(round_to_multiple(0, 4), 0);
    assert_eq!(round_to_multiple(13, 4), 16);
    for n in 0..50usize {
        let r = round_to_multiple(n, 4);
        assert_eq!(round_to_multiple(r, 4), r);
        assert!(r >= n && r < n + 4);
    }
}

#[test]
fn decode_bytes_maps_each_byte() {
    assert_eq!(decode_bytes(&vec![104, 105, 200]), "hi\u{c8}");
    assert_eq!(decode_bytes(&vec![]), "");
}

#[test]
fn byte_orders() {
    assert_eq!(decode_u32(Endian::Little, &[1, 0, 0, 0]), 1);
    assert_eq!(decode_u32(Endian::Big, &[0, 0, 1, 2]), 258);
    assert_eq!(decode_u16(Endian::Big, &[1, 2]), 258);
    assert_eq!(decode_u16(Endian::Little, &[1, 2]), 513);
}

#[test]
fn stream_reads_past_end_give_zero() {
    let mut f = FileStream::new(vec![7, 0, 0], Endian::Little);
    assert_eq!(f.read_u16(), 7);
    assert_eq!(f.read_u32(), 0);
    assert_eq!(f.position, 6);
    assert_eq!(f.read_byte(), 0);
    assert_eq!(f.read(2), Vec::<u8>::new());
    assert_eq!(f.read_string_bin(3), "");
    assert_eq!(f.position, 12);
}

#[test]
fn length_prefixed_strings_round_trip() {
    for len in [0usize, 1, 5, 127, 128, 129, 255, 1000, 16383, 32767] {
        let name: String = (0..len).map(|i| (b'a' + (i % 26) as u8) as char).collect();
        let mut b = Vec::new();
        header(&mut b, 2, 15);
        put_u32(&mut b, 1);
        put_str(&mut b, &name);
        put_u16(&mut b, 4);
        for _ in 0..3 {
            put_f32(&mut b, 0.0);
        }
        put_u32(&mut b, 0);
        let m = read_xps_model(b, Endian::Little, params(false, false)).unwrap();
        assert_eq!(m.bones[0].name, name);
        assert_eq!(m.bones[0].parent_id, 4);
    }
}

#[test]
fn high_bytes_decode_one_for_one() {
    let mut b = Vec::new();
    header(&mut b, 2, 15);
    put_u32(&mut b, 1);
    b.push(3);
    b.extend_from_slice(&[0xe9, 0x41, 0xff]);
    put_u16(&mut b, 0);
    for _ in 0..3 {
        put_f32(&mut b, 0.0);
    }
    put_u32(&mut b, 0);
    let m = read_xps_model(b, Endian::Little, params(false, false)).unwrap();
    assert_eq!(m.bones[0].name, "\u{e9}A\u{ff}");
}

#[test]
fn big_endian_source() {
    let mut b = Vec::new();
    b.extend_from_slice(&323232u32.to_be_bytes());
    b.extend_from_slice(&2u16.to_be_bytes());
    b.extend_from_slice(&15u16.to_be_bytes());
    put_str(&mut b, "XNAaraL");
    b.extend_from_slice(&2u32.to_be_bytes());
    put_str(&mut b, "");
    put_str(&mut b, "");
    put_str(&mut b, "");
    b.extend_from_slice(&[0; 8]);
    b.extend_from_slice(&1u32.to_be_bytes());
    put_str(&mut b, "root");
    b.extend_from_slice(&(-1i16).to_be_bytes());
    b.extend_from_slice(&[0; 12]);
    b.extend_from_slice(&0u32.to_be_bytes());
    let m = read_xps_model(b, Endian::Big, params(false, false)).unwrap();
    assert_eq!(m.bones[0].parent_id, -1);
    assert_eq!(m.header.version_minor, 15);
}
