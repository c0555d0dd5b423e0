use xps_loader::bin_ops::Endian;
use xps_loader::bone_naming::BoneNaming;
use xps_loader::error_types::XpsError;
use xps_loader::interface::{
    xps_get_bone_count, xps_get_bone_name, xps_get_bone_parent_id, xps_get_bone_position, xps_get_error,
    xps_get_mesh_count, xps_get_mesh_index, xps_get_mesh_index_count, xps_get_mesh_name, xps_get_texture_count,
    xps_get_texture_filename, xps_get_texture_id, xps_get_texture_uv_layer, xps_get_uv_layers,
    xps_get_vertex_bone_index, xps_get_vertex_bone_weight, xps_get_vertex_color, xps_get_vertex_count,
    xps_get_vertex_normal, xps_get_vertex_position, xps_get_vertex_uv, Color,
};
use xps_loader::loader::open;
use xps_loader::types::{Data, Real};

const MODEL: &str = "1
hip
1 2 3
-1
1
skin
1
1
tex/a.png
0
1
4 5 6
0 1 0
1 2 3 4
0.5 0.25
0 0 0 0
1 0 0 0
1
0 0 0
";

fn loaded() -> Data {
    open("m.ascii", Some(MODEL.as_bytes().to_vec()), Endian::Little, BoneNaming::Default, true, false).unwrap()
}

fn dec(r: &Real) -> String {
    match r {
        Real::Decimal(s) => s.clone(),
        _ => String::from("?"),
    }
}

#[test]
fn accessors_read_the_model() {
    let m = loaded();
    assert_eq!(xps_get_error(&m), XpsError::NoError);
    assert_eq!(xps_get_bone_count(&m), 1);
    assert_eq!(xps_get_bone_name(&m, 0), "hip");
    assert_eq!(xps_get_bone_parent_id(&m, 0), -1);
    assert_eq!(dec(&xps_get_bone_position(&m, 0)[2]), "3");
    assert_eq!(xps_get_mesh_count(&m), 1);
    assert_eq!(xps_get_mesh_name(&m, 0), "skin");
    assert_eq!(xps_get_uv_layers(&m, 0), 1);
    assert_eq!(xps_get_texture_count(&m, 0), 1);
    assert_eq!(xps_get_texture_id(&m, 0, 0), 0);
    assert_eq!(xps_get_texture_filename(&m, 0, 0), "a.png");
    assert_eq!(xps_get_texture_uv_layer(&m, 0, 0), 0);
    assert_eq!(xps_get_vertex_count(&m, 0), 1);
    assert_eq!(dec(&xps_get_vertex_position(&m, 0, 0)[0]), "4");
    assert_eq!(dec(&xps_get_vertex_normal(&m, 0, 0)[1]), "1");
    assert_eq!(xps_get_vertex_color(&m, 0, 0), Color { x: 1, y: 2, z: 3, w: 4 });
    let uv = xps_get_vertex_uv(&m, 0, 0, 0);
    assert_eq!(dec(&uv.u), "0.5");
    assert!(uv.flip_v);
    assert_eq!(xps_get_vertex_bone_index(&m, 0, 0, 0), 0);
    assert_eq!(dec(xps_get_vertex_bone_weight(&m, 0, 0, 0)), "1");
    assert_eq!(xps_get_mesh_index_count(&m, 0), 3);
    assert_eq!(xps_get_mesh_index(&m, 0, 2), 0);
}

#[test]
fn default_model_is_empty() {
    let d = Data::default();
    assert_eq!(d.error, XpsError::Unknown);
    assert!(d.bones.is_empty() && d.meshes.is_empty());
    assert_eq!(d.header.version_mayor, 2);
}
