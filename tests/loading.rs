use xps_loader::bin_ops::Endian;
use xps_loader::bone_naming::{bone_type_to_mecanim_name, BoneNaming, BoneType, Converter};
use xps_loader::error_types::XpsError;
use xps_loader::loader::{format_of, open, Format};
use xps_loader::material::RenderGroup;
use xps_loader::texture_path::{texture_file, texture_name_from};
use xps_loader::types::Header;

#[test]
fn suffix_selects_decoder() {
    assert_eq!(format_of("a.ascii"), Some(Format::Ascii));
    assert_eq!(format_of("a.mesh"), Some(Format::Binary));
    assert_eq!(format_of("dir/a.xps"), Some(Format::Binary));
    assert_eq!(format_of("a.txt"), None);
    assert_eq!(format_of("xps"), None);
}

#[test]
fn unknown_suffix_is_not_loaded() {
    let r = open("model.obj", Some(vec![]), Endian::Little, BoneNaming::Default, false, false);
    assert!(matches!(r, Err(XpsError::FileNotLoaded)));
}

#[test]
fn unopened_source() {
    let r = open("model.xps", None, Endian::Little, BoneNaming::Default, false, false);
    assert!(matches!(r, Err(XpsError::StreamNotOpened)));
}

#[test]
fn binary_suffix_checks_magic() {
    let r = open("model.mesh", Some(vec![0; 16]), Endian::Little, BoneNaming::Default, false, false);
    assert!(matches!(r, Err(XpsError::InvalidHeader)));
}

#[test]
fn mecanim_naming_renames_known_bones() {
    let text = "3\nleg left thigh\n0 0 0\n-1\npelvis\n0 0 0\n0\nmystery\n0 0 0\n0\n0\n";
    let m = open("m.ascii", Some(text.as_bytes().to_vec()), Endian::Little, BoneNaming::Mecanim, false, false)
        .unwrap();
    assert_eq!(m.bones[0].name, "LeftUpperLeg");
    assert_eq!(m.bones[1].name, "default");
    assert_eq!(m.bones[2].name, "mystery");
    assert_eq!(m.bones[2].id, 2);
    let d = open("m.ascii", Some(text.as_bytes().to_vec()), Endian::Little, BoneNaming::Default, false, false)
        .unwrap();
    assert_eq!(d.bones[0].name, "leg left thigh");
}

#[test]
fn texture_name_from_parent() {
    let f = "a/b/c.png".to_string();
    assert_eq!(texture_name_from(&f, Some(Some("a/b".to_string()))).unwrap(), "c.png");
    assert_eq!(texture_name_from(&f, Some(Some(String::new()))).unwrap(), "abc.png");
    assert!(matches!(texture_name_from(&f, None), Err(XpsError::PathGetParent)));
    assert!(matches!(texture_name_from(&f, Some(None)), Err(XpsError::PathToStr)));
    let g = "x\\y\\z.dds".to_string();
    assert_eq!(texture_name_from(&g, Some(Some("x\\y".to_string()))).unwrap(), "z.dds");
}

#[test]
fn texture_file_strips_directory() {
    assert_eq!(texture_file(&"dir/tex.png".to_string()).unwrap(), "tex.png");
    assert_eq!(texture_file(&"tex.png".to_string()).unwrap(), "tex.png");
    assert!(matches!(texture_file(&String::new()), Err(XpsError::PathGetParent)));
}

#[test]
fn bone_tables() {
    let c = Converter::new();
    assert_eq!(c.bone_dictionary.len(), 233);
    assert_eq!(c.get("root hips"), Some(BoneType::Hips));
    assert_eq!(c.get("nobody"), None);
    assert_eq!(c.get("pelvis"), Some(BoneType::Pelvis));
    assert_eq!(c.get("RightToe"), Some(BoneType::ToeRight));
    assert_eq!(bone_type_to_mecanim_name(BoneType::Hips), "Hips");
    assert_eq!(bone_type_to_mecanim_name(BoneType::Pelvis), "default");
}

#[test]
fn render_groups() {
    let g = RenderGroup::new(1);
    assert_eq!(g.tex_count, 6);
    assert_eq!(g.texture_types[1], "lightmap");
    let d = RenderGroup::new(99);
    assert_eq!(d.tex_count, 6);
    assert_eq!(d.texture_types[1], "mask");
    assert!(d.posable);
    for n in [-1, 0, 34, 35, 44] {
        let g = RenderGroup::new(n);
        assert_eq!(g.texture_types, vec!["diffuse", "mask", "mask", "mask", "mask", "mask"]);
        assert!(!g.alpha && g.bump1_rep && g.bump2_rep && !g.spec1_rep);
        assert_eq!(g.specular, "Yes");
    }
    assert!(!RenderGroup::new(15).posable);
    assert_eq!(RenderGroup::new(36).specular, "Yes intensity");
    let t = RenderGroup::new(43);
    assert!(t.alpha && t.spec1_rep);
    assert_eq!(t.texture_types.len(), 3);
}

#[test]
fn defaults() {
    assert_eq!(XpsError::default(), XpsError::Unknown);
    let h = Header::default();
    assert_eq!(h.magic_number, 323232);
    assert_eq!(h.settings_length, 275);
    assert_eq!(h.aral, "XNAaraL");
    assert_eq!(XpsError::MeshReadBin.name(), "MeshReadBin");
}

fn parse(name: &str) -> xps_loader::mesh_name_parser::MeshNameParser {
    xps_loader::mesh_name_parser::MeshNameParser::new(&name.to_string())
}

fn real_text(r: &xps_loader::types::Real) -> String {
    match r {
        xps_loader::types::Real::Decimal(s) => s.clone(),
        xps_loader::types::Real::Bits(b) => format!("bits {}", b),
        xps_loader::types::Real::NotANumber => "NaN".to_string(),
    }
}

#[test]
fn mesh_name_with_group_and_parameters() {
    let p = parse("24_body_0.5_2_x_cam_head_hand");
    assert_eq!(p.get_render_group_number(), 24);
    assert!(p.has_render_group);
    assert_eq!(p.mesh_name, "body");
    assert_eq!(real_text(&p.specular_amount), "0.5");
    assert!(p.has_specular_amount && p.has_bump1_uv_scale && !p.has_bump2_uv_scale);
    assert_eq!(real_text(&p.bump2_uv_scale), "bits 0");
    assert!(p.has_camera_targets);
    assert_eq!(p.camera_name, "cam");
    assert_eq!(p.camera_targets, vec!["head".to_string(), "hand".to_string()]);
    assert_eq!(p.normalize_camera_targets(), "_head_hand");
    assert!(p.is_visible_by_default);
    assert_eq!(p.normalize_mesh_part_name(), "body");
}

#[test]
fn mesh_name_plain() {
    let p = parse("");
    assert_eq!(p.full_name, "null");
    assert_eq!(p.get_render_group_number(), 0);
    assert!(!p.has_render_group && !p.is_visible_by_default);
    assert_eq!(real_text(&p.specular_amount), "0.1");
    let q = parse("0_x_y");
    assert!(!q.is_visible_by_default);
    assert_eq!(real_text(&q.specular_amount), "0.1");
    assert!(!q.has_specular_amount);
    let c = parse("1_a_1_1_1_cam");
    assert_eq!(c.camera_targets, vec!["root".to_string()]);
}

#[test]
fn mesh_name_optional_item() {
    let p = parse("5_-hat.brim_1_1_1");
    assert!(p.has_optional_items);
    assert!(!p.is_visible_by_default);
    assert_eq!(p.item_name, "-");
    assert_eq!(p.item_mesh_part, "brim");
    assert_eq!(p.normalize_mesh_part_name(), "--.brim");
    let q = parse("5_+hat");
    assert!(q.is_visible_by_default);
    assert_eq!(q.item_mesh_part, "+");
}
