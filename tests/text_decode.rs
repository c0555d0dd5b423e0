use xps_loader::ascii::{
    bone_dict_data, fill_array, read_bone_dict, ignore_comment, ignore_string_comment, pose_data, read_xps_model, split_values,
};
use xps_loader::ascii_ops::{get_float, get_int};
use xps_loader::error_types::XpsError;
use xps_loader::types::{ImportParameters, Real};

fn params(flip_uv: bool, reverse_winding: bool) -> ImportParameters {
    ImportParameters { flip_uv, reverse_winding }
}

fn dec(r: &Real) -> String {
    match r {
        Real::Decimal(s) => s.clone(),
        Real::NotANumber => "NaN".to_string(),
        Real::Bits(b) => format!("bits {}", b),
    }
}

fn strings(v: &[&str]) -> Vec<String> {
    v.iter().map(|s| s.to_string()).collect()
}

const MODEL: &str = "1 # bones
root bone # name
abc 1.0 2.0
-1
1 # meshes
body
1
1
textures/skin.png
0
2
0 0 0
0 1 0
255 128 0 255
0.25 0.3
0 0 0 0
1 0 0 0
1 2 3
4 5 6
1 1 1 1
0.5 0.75
1 0
0.5 0.5
1
0 1 2
";

#[test]
fn malformed_position_token_is_not_a_number() {
    let m = read_xps_model(MODEL.as_bytes().to_vec(), params(false, false)).unwrap();
    assert_eq!(m.bones.len(), 1);
    assert_eq!(m.bones[0].name, "root bone ");
    let co: Vec<String> = m.bones[0].co.iter().map(dec).collect();
    assert_eq!(co, strings(&["NaN", "1.0", "2.0"]));
    assert_eq!(m.bones[0].parent_id, -1);
    assert_eq!(m.error, XpsError::NoError);
    assert_eq!(m.header.magic_number, 323232);
    assert_eq!(m.header.aral, "XNAaraL");
}

#[test]
fn text_mesh_fields() {
    let m = read_xps_model(MODEL.as_bytes().to_vec(), params(true, true)).unwrap();
    let mesh = &m.meshes[0];
    assert_eq!(mesh.name, "body");
    assert_eq!(mesh.uv_count, 1);
    assert_eq!(mesh.textures.len(), 1);
    assert_eq!(mesh.textures[0].file, "skin.png");
    assert_eq!(mesh.vertices.len(), 2);
    let v = &mesh.vertices[0];
    assert_eq!(v.color, [255, 128, 0, 255]);
    assert_eq!(dec(&v.uv[0].v), "0.3");
    assert!(v.uv[0].flip_v);
    assert_eq!(v.bone_weights[0].id, 0);
    assert_eq!(dec(&v.bone_weights[0].weight), "1");
    let w = &mesh.vertices[1];
    assert_eq!(w.bone_weights[0].id, 1);
    assert_eq!(w.bone_weights[1].id, 0);
    assert_eq!(w.bone_weights[2].id, 0);
    assert_eq!(dec(&w.bone_weights[1].weight), "0.5");
    assert_eq!(dec(&w.bone_weights[3].weight), "0");
    assert_eq!(mesh.faces, vec![0, 2, 1]);
}

#[test]
fn text_winding_kept() {
    let m = read_xps_model(MODEL.as_bytes().to_vec(), params(false, false)).unwrap();
    assert_eq!(m.meshes[0].faces, vec![0, 1, 2]);
    assert!(!m.meshes[0].vertices[0].uv[0].flip_v);
}

#[test]
fn text_model_without_bones() {
    let text = "0\n1\n\n0\n0\n1\n1 2 3\n4 5 6\n7 8 9 10\n0\n";
    let m = read_xps_model(text.as_bytes().to_vec(), params(false, false)).unwrap();
    assert_eq!(m.bones.len(), 0);
    let mesh = &m.meshes[0];
    assert_eq!(mesh.name, "xxx");
    assert_eq!(mesh.vertices.len(), 1);
    assert_eq!(mesh.vertices[0].color, [7, 8, 9, 10]);
    assert_eq!(dec(&mesh.vertices[0].normal[2]), "6");
    assert_eq!(mesh.vertices[0].bone_weights[3].id, 0);
}

#[test]
fn text_empty_texture_name_fails() {
    let text = "0\n1\nm\n0\n1\n\n0\n0\n0\n";
    assert!(matches!(read_xps_model(text.as_bytes().to_vec(), params(false, false)), Err(XpsError::MeshReadAscii)));
}

#[test]
fn default_pose_line_is_padded_with_ones() {
    let poses = pose_data(&"spine:0.1 0.2 0.3 1 2 3".to_string());
    assert_eq!(poses.len(), 1);
    let p = &poses[0];
    assert_eq!(p.name, "spine");
    let cd: Vec<String> = p.coordinate_delta.iter().map(dec).collect();
    let rd: Vec<String> = p.rotation_delta.iter().map(dec).collect();
    let sc: Vec<String> = p.scale.iter().map(dec).collect();
    assert_eq!(cd, strings(&["0.1", "0.2", "0.3"]));
    assert_eq!(rd, strings(&["1", "2", "3"]));
    assert_eq!(sc, strings(&["1", "1", "1"]));
}

#[test]
fn default_pose_later_line_wins() {
    let poses = pose_data(&"a:1\n\nb:2 x\na:5 6 7 8 9 10 11 12 13 14\n".to_string());
    assert_eq!(poses.len(), 2);
    let a = poses.iter().find(|p| p.name == "a").unwrap();
    let b = poses.iter().find(|p| p.name == "b").unwrap();
    assert_eq!(dec(&a.coordinate_delta[0]), "5");
    assert_eq!(dec(&a.scale[2]), "13");
    assert_eq!(dec(&b.coordinate_delta[1]), "NaN");
    assert_eq!(dec(&b.rotation_delta[0]), "1");
}

#[test]
fn default_pose_empty_text() {
    assert_eq!(pose_data(&String::new()).len(), 0);
}

#[test]
fn tokenizer_functions() {
    assert_eq!(split_values(&"a b#c  d".to_string()), strings(&["a", "b", "c", "d"]));
    assert_eq!(split_values(&"   ".to_string()), Vec::<String>::new());
    assert_eq!(ignore_comment(&"  12 # count".to_string()), "12");
    assert_eq!(ignore_comment(&"#".to_string()), "");
    assert_eq!(ignore_string_comment(&"bone name # c".to_string()), "bone name ");
    assert_eq!(ignore_string_comment(&"plain".to_string()), "plain");
}

#[test]
fn integer_tokens() {
    assert_eq!(get_int(&"42".to_string()), 42);
    assert_eq!(get_int(&"-7".to_string()), -7);
    assert_eq!(get_int(&"+3".to_string()), 3);
    assert_eq!(get_int(&"abc".to_string()), 0);
    assert_eq!(get_int(&"".to_string()), 0);
    assert_eq!(get_int(&"-".to_string()), 0);
    assert_eq!(get_int(&"2147483647".to_string()), i32::MAX);
    assert_eq!(get_int(&"2147483648".to_string()), 0);
    assert_eq!(get_int(&"-2147483648".to_string()), i32::MIN);
    assert_eq!(get_int(&"12a".to_string()), 0);
}

#[test]
fn float_tokens() {
    for ok in ["0.5", "1e5", "-2.5E-3", "1.", ".5", "inf", "-Infinity", "NaN", "+7"] {
        assert_eq!(dec(&get_float(&ok.to_string())), ok);
        assert!(ok.parse::<f32>().is_ok());
    }
    for bad in ["", ".", "e5", "1e", "abc", "1.2.3", "--1", "1e+"] {
        assert_eq!(dec(&get_float(&bad.to_string())), "NaN");
        assert!(bad.parse::<f32>().is_err());
    }
}

#[test]
fn fill_array_pads_only() {
    let mut v = strings(&["a"]);
    fill_array(&mut v, 3, "0".to_string());
    assert_eq!(v, strings(&["a", "0", "0"]));
    let mut w = strings(&["a", "b", "c"]);
    fill_array(&mut w, 2, "0".to_string());
    assert_eq!(w, strings(&["a", "b", "c"]));
}

#[test]
fn bone_dict_tables() {
    let (rename, restore) = bone_dict_data(&"a;b\n\nc;d;x\na;e\nlone\n".to_string());
    let mut r = rename.clone();
    r.sort();
    assert_eq!(
        r,
        vec![
            ("a".to_string(), "e".to_string()),
            ("c".to_string(), "d".to_string()),
            ("lone".to_string(), String::new())
        ]
    );
    let mut s = restore.clone();
    s.sort();
    assert_eq!(
        s,
        vec![
            (String::new(), "lone".to_string()),
            ("b".to_string(), "a".to_string()),
            ("d".to_string(), "c".to_string()),
            ("e".to_string(), "a".to_string())
        ]
    );
    let (none_a, none_b) = read_bone_dict(None);
    assert!(none_a.is_empty() && none_b.is_empty());
    let text = "x;y".to_string();
    assert_eq!(read_bone_dict(Some(&text)).0, vec![("x".to_string(), "y".to_string())]);
}

#[test]
fn default_pose_keeps_tokens_past_nine() {
    let poses = pose_data(&"b:1 2 3 4 5 6 7 8 9 10".to_string());
    assert_eq!(dec(&poses[0].scale[2]), "9");
}
