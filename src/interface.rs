use vstd::prelude::*;
use crate::error_types::XpsError;
use crate::types::{Data, Real, UvPair};

verus! {

/// A vertex color, one byte per channel.
#[derive(Clone, Copy, Debug, PartialEq, Eq, Structural)]
pub struct Color {
    pub x: u8,
    pub y: u8,
    pub z: u8,
    pub w: u8,
}

pub open spec fn has_mesh(m: &Data, mesh: usize) -> bool {
    mesh < m.meshes@.len()
}

pub open spec fn has_vertex(m: &Data, mesh: usize, vertex: usize) -> bool {
    has_mesh(m, mesh) && vertex < m.meshes@[mesh as int].vertices@.len()
}

pub open spec fn has_texture(m: &Data, mesh: usize, texture: usize) -> bool {
    has_mesh(m, mesh) && texture < m.meshes@[mesh as int].textures@.len()
}

pub fn xps_get_error(model: &Data) -> (r: XpsError)
    ensures
        r == model.error,
{
    model.error
}

pub fn xps_get_mesh_count(model: &Data) -> (r: usize)
    ensures
        r == model.meshes@.len(),
{
    model.meshes.len()
}

pub fn xps_get_bone_count(model: &Data) -> (r: usize)
    ensures
        r == model.bones@.len(),
{
    model.bones.len()
}

pub fn xps_get_bone_name(model: &Data, index: usize) -> (r: &String)
    requires
        index < model.bones@.len(),
    ensures
        r@ == model.bones@[index as int].name@,
{
    &model.bones[index].name
}

pub fn xps_get_bone_parent_id(model: &Data, index: usize) -> (r: i16)
    requires
        index < model.bones@.len(),
    ensures
        r == model.bones@[index as int].parent_id,
{
    model.bones[index].parent_id
}

pub fn xps_get_bone_position(model: &Data, index: usize) -> (r: &[Real; 3])
    requires
        index < model.bones@.len(),
    ensures
        r == &model.bones@[index as int].co,
{
    &model.bones[index].co
}

pub fn xps_get_mesh_name(model: &Data, mesh_index: usize) -> (r: &String)
    requires
        has_mesh(model, mesh_index),
    ensures
        r@ == model.meshes@[mesh_index as int].name@,
{
    &model.meshes[mesh_index].name
}

pub fn xps_get_uv_layers(model: &Data, mesh_index: usize) -> (r: u32)
    requires
        has_mesh(model, mesh_index),
    ensures
        r == model.meshes@[mesh_index as int].uv_count,
{
    model.meshes[mesh_index].uv_count
}

pub fn xps_get_vertex_count(model: &Data, mesh_index: usize) -> (r: usize)
    requires
        has_mesh(model, mesh_index),
    ensures
        r == model.meshes@[mesh_index as int].vertices@.len(),
{
    model.meshes[mesh_index].vertices.len()
}

pub fn xps_get_texture_count(model: &Data, mesh_index: usize) -> (r: usize)
    requires
        has_mesh(model, mesh_index),
    ensures
        r == model.meshes@[mesh_index as int].textures@.len(),
{
    model.meshes[mesh_index].textures.len()
}

pub fn xps_get_texture_id(model: &Data, mesh_index: usize, texture_index: usize) -> (r: u32)
    requires
        has_texture(model, mesh_index, texture_index),
    ensures
        r == model.meshes@[mesh_index as int].textures@[texture_index as int].id,
{
    model.meshes[mesh_index].textures[texture_index].id
}

pub fn xps_get_texture_filename(model: &Data, mesh_index: usize, texture_index: usize) -> (r: &String)
    requires
        has_texture(model, mesh_index, texture_index),
    ensures
        r@ == model.meshes@[mesh_index as int].textures@[texture_index as int].file@,
{
    &model.meshes[mesh_index].textures[texture_index].file
}

pub fn xps_get_texture_uv_layer(model: &Data, mesh_index: usize, texture_index: usize) -> (r: u16)
    requires
        has_texture(model, mesh_index, texture_index),
    ensures
        r == model.meshes@[mesh_index as int].textures@[texture_index as int].uv_layer,
{
    model.meshes[mesh_index].textures[texture_index].uv_layer
}

pub fn xps_get_mesh_index_count(model: &Data, mesh_index: usize) -> (r: usize)
    requires
        has_mesh(model, mesh_index),
    ensures
        r == model.meshes@[mesh_index as int].faces@.len(),
{
    model.meshes[mesh_index].faces.len()
}

pub fn xps_get_mesh_index(model: &Data, mesh_index: usize, index_num: usize) -> (r: u32)
    requires
        has_mesh(model, mesh_index),
        index_num < model.meshes@[mesh_index as int].faces@.len(),
    ensures
        r == model.meshes@[mesh_index as int].faces@[index_num as int],
{
    model.meshes[mesh_index].faces[index_num]
}

pub fn xps_get_vertex_position(model: &Data, mesh_index: usize, vertex_index: usize) -> (r: &[Real; 3])
    requires
        has_vertex(model, mesh_index, vertex_index),
    ensures
        r == &model.meshes@[mesh_index as int].vertices@[vertex_index as int].position,
{
    &model.meshes[mesh_index].vertices[vertex_index].position
}

pub fn xps_get_vertex_normal(model: &Data, mesh_index: usize, vertex_index: usize) -> (r: &[Real; 3])
    requires
        has_vertex(model, mesh_index, vertex_index),
    ensures
        r == &model.meshes@[mesh_index as int].vertices@[vertex_index as int].normal,
{
    &model.meshes[mesh_index].vertices[vertex_index].normal
}

pub fn xps_get_vertex_color(model: &Data, mesh_index: usize, vertex_index: usize) -> (r: Color)
    requires
        has_vertex(model, mesh_index, vertex_index),
    ensures
        ({
            let c = model.meshes@[mesh_index as int].vertices@[vertex_index as int].color@;
            r == Color { x: c[0], y: c[1], z: c[2], w: c[3] }
        }),
{
    let c = &model.meshes[mesh_index].vertices[vertex_index].color;
    Color { x: c[0], y: c[1], z: c[2], w: c[3] }
}

pub fn xps_get_vertex_uv(model: &Data, mesh_index: usize, vertex_index: usize, layer_id: usize) -> (r: &UvPair)
    requires
        has_vertex(model, mesh_index, vertex_index),
        layer_id < model.meshes@[mesh_index as int].vertices@[vertex_index as int].uv@.len(),
    ensures
        r == &model.meshes@[mesh_index as int].vertices@[vertex_index as int].uv@[layer_id as int],
{
    &model.meshes[mesh_index].vertices[vertex_index].uv[layer_id]
}

pub fn xps_get_vertex_bone_index(model: &Data, mesh_index: usize, vertex_index: usize, weight_id: usize) -> (r: i16)
    requires
        has_vertex(model, mesh_index, vertex_index),
        weight_id < 4,
    ensures
        r == model.meshes@[mesh_index as int].vertices@[vertex_index as int].bone_weights@[weight_id as int].id,
{
    model.meshes[mesh_index].vertices[vertex_index].bone_weights[weight_id].id
}

pub fn xps_get_vertex_bone_weight(model: &Data, mesh_index: usize, vertex_index: usize, weight_id: usize) -> (r: &Real)
    requires
        has_vertex(model, mesh_index, vertex_index),
        weight_id < 4,
    ensures
        r == &model.meshes@[mesh_index as int].vertices@[vertex_index as int].bone_weights@[weight_id as int].weight,
{
    &model.meshes[mesh_index].vertices[vertex_index].bone_weights[weight_id].weight
}

} // verus!
