use vstd::prelude::*;
use crate::ascii_ops::{first_word, int_of, real_of, trim, words, before_comment};
use crate::bin_ops::Endian;
use crate::binary::{unset_weight, wound};
use crate::error_types::XpsError;
use crate::file_input::{line_at, FileStream};
use crate::texture_path::{mesh_error, mesh_ok, mesh_renamed, meshes_ok, normalize_mesh};
use crate::types::{
    mesh_wf,
    Bone, BoneV, BoneWeight, BoneWeightV, Data, Header, ImportParameters, Mesh, MeshV, Real, RealV,
    Texture, TextureV, UvPair, UvPairV, Vertex, VertexV, default_header, reals_view,
};

pub use crate::ascii_ops::{get_float, get_int, ignore_comment, ignore_string_comment, split_values};
pub use crate::pose::{bone_dict_data, pose_data, read_bone_dict};

verus! {

/// Where reading the line at `p` leaves the position.
pub open spec fn next_line(d: Seq<u8>, p: int) -> int {
    crate::binary::after_line(d, p)
}

/// The line at `p` without surrounding white space.
pub open spec fn tline(d: Seq<u8>, p: int) -> Seq<char> {
    trim(line_at(d, p))
}

/// The line at `p` read as an integer.
pub open spec fn int_line(d: Seq<u8>, p: int) -> i32 {
    int_of(first_word(tline(d, p)))
}

/// The line at `p` read as free text.
pub open spec fn str_line(d: Seq<u8>, p: int) -> Seq<char> {
    before_comment(tline(d, p))
}

/// The tokens of the line at `p`.
pub open spec fn words_line(d: Seq<u8>, p: int) -> Seq<Seq<char>> {
    words(tline(d, p), true)
}

/// The `i`-th token, or the empty text when there are fewer.
pub open spec fn token(ws: Seq<Seq<char>>, i: int) -> Seq<char> {
    if i < ws.len() {
        ws[i]
    } else {
        seq![]
    }
}

/// `s` padded with `v` to length `n`; a longer `s` stays as it is.
pub open spec fn resized(s: Seq<Seq<char>>, n: nat, v: Seq<char>) -> Seq<Seq<char>> {
    Seq::new(if s.len() >= n { s.len() } else { n }, |i: int| if i < s.len() { s[i] } else { v })
}

/// The tokens of the line at `p`, padded with `0` to four.
pub open spec fn four_line(d: Seq<u8>, p: int) -> Seq<Seq<char>> {
    resized(words_line(d, p), 4, seq!['0'])
}

/// A count as the text gives it; a negative one counts nothing.
pub open spec fn count_of(n: i32) -> nat {
    if n < 0 {
        0
    } else {
        n as nat
    }
}

pub open spec fn xyz_line(d: Seq<u8>, p: int) -> Seq<RealV> {
    let ws = words_line(d, p);
    seq![real_of(token(ws, 0)), real_of(token(ws, 1)), real_of(token(ws, 2))]
}

pub open spec fn uv_line(d: Seq<u8>, p: int, flip: bool) -> UvPairV {
    let ws = words_line(d, p);
    UvPairV { u: real_of(token(ws, 0)), v: real_of(token(ws, 1)), flip_v: flip }
}

pub open spec fn color_line(d: Seq<u8>, p: int) -> Seq<u8> {
    let ws = four_line(d, p);
    seq![int_of(ws[0]) as u8, int_of(ws[1]) as u8, int_of(ws[2]) as u8, int_of(ws[3]) as u8]
}

/// The bone-weight slots at `p`: a line of ids and a line of weights when
/// the model has a skeleton; four unset slots, reading nothing, when not.
pub open spec fn weights_lines(d: Seq<u8>, p: int, has_bones: bool) -> (Seq<BoneWeightV>, int) {
    if has_bones {
        let ids = four_line(d, p);
        let q = next_line(d, p);
        let ws = four_line(d, q);
        (
            Seq::new(
                4,
                |i: int| BoneWeightV { id: int_of(ids[i]) as i16, weight: real_of(ws[i]) },
            ),
            next_line(d, q),
        )
    } else {
        (seq![unset_weight(), unset_weight(), unset_weight(), unset_weight()], p)
    }
}

pub open spec fn uv_lines_n(d: Seq<u8>, p: int, n: nat, flip: bool) -> (Seq<UvPairV>, int)
    decreases n,
{
    if n == 0 {
        (seq![], p)
    } else {
        let (us, q) = uv_lines_n(d, p, (n - 1) as nat, flip);
        (us.push(uv_line(d, q, flip)), next_line(d, q))
    }
}

/// The vertex at `p`: position line, normal line, color line, a line per UV
/// layer, then the weight lines.
pub open spec fn text_vertex_at(d: Seq<u8>, p: int, uvn: nat, has_bones: bool, flip: bool) -> (VertexV, int) {
    let p1 = next_line(d, p);
    let p2 = next_line(d, p1);
    let (uv, p3) = uv_lines_n(d, next_line(d, p2), uvn, flip);
    let (w, p4) = weights_lines(d, p3, has_bones);
    (
        VertexV {
            position: xyz_line(d, p),
            normal: xyz_line(d, p1),
            color: color_line(d, p2),
            uv,
            bone_weights: w,
        },
        p4,
    )
}

pub open spec fn text_vertices_n(d: Seq<u8>, p: int, n: nat, uvn: nat, has_bones: bool, flip: bool) -> (Seq<VertexV>, int)
    decreases n,
{
    if n == 0 {
        (seq![], p)
    } else {
        let (vs, q) = text_vertices_n(d, p, (n - 1) as nat, uvn, has_bones, flip);
        let (v, r) = text_vertex_at(d, q, uvn, has_bones, flip);
        (vs.push(v), r)
    }
}

/// The texture at `p`: a name line, then a UV-layer line.
pub open spec fn text_texture_at(d: Seq<u8>, p: int, id: u32) -> (TextureV, int) {
    let q = next_line(d, p);
    (TextureV { id, file: str_line(d, p), uv_layer: int_line(d, q) as u16 }, next_line(d, q))
}

pub open spec fn text_textures_n(d: Seq<u8>, p: int, n: nat) -> (Seq<TextureV>, int)
    decreases n,
{
    if n == 0 {
        (seq![], p)
    } else {
        let (ts, q) = text_textures_n(d, p, (n - 1) as nat);
        let (t, r) = text_texture_at(d, q, (n - 1) as u32);
        (ts.push(t), r)
    }
}

pub open spec fn text_faces_n(d: Seq<u8>, p: int, n: nat, reverse: bool) -> (Seq<u32>, int)
    decreases n,
{
    if n == 0 {
        (seq![], p)
    } else {
        let (fs, q) = text_faces_n(d, p, (n - 1) as nat, reverse);
        let ws = words_line(d, q);
        (
            fs + wound(
                int_of(token(ws, 0)) as u32,
                int_of(token(ws, 1)) as u32,
                int_of(token(ws, 2)) as u32,
                reverse,
            ),
            next_line(d, q),
        )
    }
}

/// The name a text mesh gets when it has none.
pub open spec fn placeholder() -> Seq<char> {
    seq!['x', 'x', 'x']
}

/// The mesh at `p`, texture file names as stored.
pub open spec fn text_mesh_at(d: Seq<u8>, p: int, has_bones: bool, params: ImportParameters) -> (MeshV, int) {
    let name = str_line(d, p);
    let p1 = next_line(d, p);
    let uvn = count_of(int_line(d, p1));
    let p2 = next_line(d, p1);
    let (textures, p3) = text_textures_n(d, next_line(d, p2), count_of(int_line(d, p2)));
    let (vertices, p4) = text_vertices_n(
        d,
        next_line(d, p3),
        count_of(int_line(d, p3)),
        uvn,
        has_bones,
        params.flip_uv,
    );
    let (faces, p5) = text_faces_n(d, next_line(d, p4), count_of(int_line(d, p4)), params.reverse_winding);
    (
        MeshV {
            name: if name.len() == 0 {
                placeholder()
            } else {
                name
            },
            textures,
            vertices,
            faces,
            uv_count: uvn as u32,
        },
        p5,
    )
}

pub open spec fn text_meshes_n(d: Seq<u8>, p: int, n: nat, has_bones: bool, params: ImportParameters) -> (Seq<MeshV>, int)
    decreases n,
{
    if n == 0 {
        (seq![], p)
    } else {
        let (ms, q) = text_meshes_n(d, p, (n - 1) as nat, has_bones, params);
        let (m, r) = text_mesh_at(d, q, has_bones, params);
        (ms.push(m), r)
    }
}

/// The mesh section at `p`: a count line, then the meshes.
pub open spec fn text_meshes_at(d: Seq<u8>, p: int, has_bones: bool, params: ImportParameters) -> (Seq<MeshV>, int) {
    text_meshes_n(d, next_line(d, p), count_of(int_line(d, p)), has_bones, params)
}

/// The bone at `p`: a name line, a position line, a parent line.
pub open spec fn text_bone_at(d: Seq<u8>, p: int, id: u32) -> (BoneV, int) {
    let p1 = next_line(d, p);
    let p2 = next_line(d, p1);
    (
        BoneV { id, name: str_line(d, p), co: xyz_line(d, p1), parent_id: int_line(d, p2) as i16 },
        next_line(d, p2),
    )
}

pub open spec fn text_bones_n(d: Seq<u8>, p: int, n: nat) -> (Seq<BoneV>, int)
    decreases n,
{
    if n == 0 {
        (seq![], p)
    } else {
        let (bs, q) = text_bones_n(d, p, (n - 1) as nat);
        let (b, r) = text_bone_at(d, q, (n - 1) as u32);
        (bs.push(b), r)
    }
}

/// Each bone's id is its place in the skeleton.
pub proof fn lemma_text_bone_ids(d: Seq<u8>, p: int, n: nat)
    requires
        n <= u32::MAX + 1,
    ensures
        text_bones_n(d, p, n).0.len() == n,
        forall|k: int| 0 <= k < n ==> (#[trigger] text_bones_n(d, p, n).0[k]).id == k,
    decreases n,
{
    if n > 0 {
        lemma_text_bone_ids(d, p, (n - 1) as nat);
    }
}

/// The skeleton section at `p`: a count line, then the bones.
pub open spec fn text_bones_at(d: Seq<u8>, p: int) -> (Seq<BoneV>, int) {
    text_bones_n(d, next_line(d, p), count_of(int_line(d, p)))
}

pub open spec fn strings_view(v: Seq<String>) -> Seq<Seq<char>> {
    v.map_values(|s: String| s@)
}

/// Pads `array` with copies of `value` up to `min_length` entries; a
/// longer array stays as it is.
pub fn fill_array(array: &mut Vec<String>, min_length: usize, value: String)
    ensures
        strings_view(final(array)@) == resized(strings_view(old(array)@), min_length as nat, value@),
{
    while array.len() < min_length
        invariant
            array@.len() >= old(array)@.len(),
            array@.len() == old(array)@.len() || array@.len() <= min_length,
            strings_view(array@) == resized(strings_view(old(array)@), array@.len(), value@),
        decreases min_length - array@.len(),
    {
        let ghost before = strings_view(array@);
        let c = value.clone();
        assert(c@ == value@);
        array.push(c);
        assert(strings_view(array@) =~= before.push(value@));
        assert(strings_view(array@) =~= resized(strings_view(old(array)@), array@.len(), value@));
    }
    assert(strings_view(array@) =~= resized(strings_view(old(array)@), min_length as nat, value@));
}

/// The `i`-th token, or the empty text.
fn token_at(values: &Vec<String>, i: usize) -> (r: String)
    ensures
        r@ == token(strings_view(values@), i as int),
{
    if i < values.len() {
        values[i].clone()
    } else {
        String::new()
    }
}

/// Reads a line of three numbers.
pub fn read_xyz(file: &mut FileStream) -> (r: [Real; 3])
    ensures
        reals_view(r@) == xyz_line(old(file).d(), old(file).p()),
        old(file).moved(final(file), next_line(old(file).d(), old(file).p())),
{
    let line = file.read_line_trim();
    let values = split_values(&line);
    assert(strings_view(values@) == words_line(old(file).d(), old(file).p()));
    let r = [get_float(&token_at(&values, 0)), get_float(&token_at(&values, 1)), get_float(&token_at(&values, 2))];
    assert(reals_view(r@) =~= xyz_line(old(file).d(), old(file).p()));
    r
}

/// Reads a line holding one UV pair.
pub fn read_uv_vertex(file: &mut FileStream, flip_uv: bool) -> (r: UvPair)
    ensures
        r@ == uv_line(old(file).d(), old(file).p(), flip_uv),
        old(file).moved(final(file), next_line(old(file).d(), old(file).p())),
{
    let line = file.read_line_trim();
    let values = split_values(&line);
    assert(strings_view(values@) == words_line(old(file).d(), old(file).p()));
    UvPair { u: get_float(&token_at(&values, 0)), v: get_float(&token_at(&values, 1)), flip_v: flip_uv }
}

/// Reads a line of tokens, padded with `0` to four.
fn read_values(file: &mut FileStream) -> (r: Vec<String>)
    ensures
        strings_view(r@) == four_line(old(file).d(), old(file).p()),
        r@.len() >= 4,
        old(file).moved(final(file), next_line(old(file).d(), old(file).p())),
{
    let line = file.read_line_trim();
    let mut values = split_values(&line);
    let zero = String::from_str("0");
    proof {
        reveal_strlit("0");
    }
    assert(zero@ =~= seq!['0']);
    fill_array(&mut values, 4, zero);
    assert(strings_view(values@).len() >= 4);
    values
}

/// Reads a line of four weights.
pub fn read_bone_weight(file: &mut FileStream) -> (r: [Real; 4])
    ensures
        forall|i: int| 0 <= i < 4 ==> (#[trigger] r@[i])@ == real_of(four_line(old(file).d(), old(file).p())[i]),
        old(file).moved(final(file), next_line(old(file).d(), old(file).p())),
{
    let values = read_values(file);
    assert(values@[0]@ == strings_view(values@)[0]);
    assert(values@[1]@ == strings_view(values@)[1]);
    assert(values@[2]@ == strings_view(values@)[2]);
    assert(values@[3]@ == strings_view(values@)[3]);
    [get_float(&values[0]), get_float(&values[1]), get_float(&values[2]), get_float(&values[3])]
}

/// Reads a line of four bone ids.
pub fn read_bone_ids(file: &mut FileStream) -> (r: [i32; 4])
    ensures
        forall|i: int| 0 <= i < 4 ==> #[trigger] r@[i] == int_of(four_line(old(file).d(), old(file).p())[i]),
        old(file).moved(final(file), next_line(old(file).d(), old(file).p())),
{
    let values = read_values(file);
    assert(values@[0]@ == strings_view(values@)[0]);
    assert(values@[1]@ == strings_view(values@)[1]);
    assert(values@[2]@ == strings_view(values@)[2]);
    assert(values@[3]@ == strings_view(values@)[3]);
    [get_int(&values[0]), get_int(&values[1]), get_int(&values[2]), get_int(&values[3])]
}

/// Reads a line of four integers.
pub fn read_int4(file: &mut FileStream) -> (r: (i32, i32, i32, i32))
    ensures
        ({
            let ws = four_line(old(file).d(), old(file).p());
            r == (int_of(ws[0]), int_of(ws[1]), int_of(ws[2]), int_of(ws[3]))
        }),
        old(file).moved(final(file), next_line(old(file).d(), old(file).p())),
{
    let values = read_values(file);
    assert(values@[0]@ == strings_view(values@)[0]);
    assert(values@[1]@ == strings_view(values@)[1]);
    assert(values@[2]@ == strings_view(values@)[2]);
    assert(values@[3]@ == strings_view(values@)[3]);
    (get_int(&values[0]), get_int(&values[1]), get_int(&values[2]), get_int(&values[3]))
}

/// Reads a line of three vertex indices.
pub fn read_face_indices(file: &mut FileStream) -> (r: (i32, i32, i32))
    ensures
        ({
            let ws = words_line(old(file).d(), old(file).p());
            r == (int_of(token(ws, 0)), int_of(token(ws, 1)), int_of(token(ws, 2)))
        }),
        old(file).moved(final(file), next_line(old(file).d(), old(file).p())),
{
    let line = file.read_line_trim();
    let values = split_values(&line);
    assert(strings_view(values@) == words_line(old(file).d(), old(file).p()));
    (get_int(&token_at(&values, 0)), get_int(&token_at(&values, 1)), get_int(&token_at(&values, 2)))
}

/// A count read from the text, negative ones counting nothing.
fn count_from(n: i32) -> (r: u32)
    ensures
        r as nat == count_of(n),
{
    if n < 0 {
        0
    } else {
        n as u32
    }
}

/// Reads the skeleton section: a count line, then for each bone a name line,
/// a position line and a parent line. Ids follow the order of reading.
pub fn read_bones(file: &mut FileStream) -> (r: Vec<Bone>)
    ensures
        (r@.map_values(|b: Bone| b@), final(file).p()) == text_bones_at(old(file).d(), old(file).p()),
        old(file).moved(final(file), final(file).p()),
{
    let ghost d = old(file).d();
    let bone_count = count_from(file.read_int());
    let ghost p0 = file.p();
    let mut bones: Vec<Bone> = Vec::new();
    let mut bone_id: u32 = 0;
    while bone_id < bone_count
        invariant
            bone_id <= bone_count,
            d == old(file).d(),
            old(file).moved(file, file.p()),
            bone_count as nat == count_of(int_line(d, old(file).p())),
            p0 == next_line(d, old(file).p()),
            (bones@.map_values(|b: Bone| b@), file.p()) == text_bones_n(d, p0, bone_id as nat),
        decreases bone_count - bone_id,
    {
        let ghost before = bones@.map_values(|b: Bone| b@);
        let name = file.read_string();
        let co = read_xyz(file);
        let parent = file.read_int();
        let bone = Bone { id: bone_id, name, co, parent_id: parent as i16 };
        bones.push(bone);
        bone_id = bone_id + 1;
        assert(bones@.map_values(|b: Bone| b@) =~= before.push(bone@));
    }
    bones
}

/// Reads the bone-weight slots of a vertex.
fn read_weights(file: &mut FileStream, has_bones: bool) -> (r: [BoneWeight; 4])
    ensures
        (r@.map_values(|w: BoneWeight| w@), final(file).p()) == weights_lines(old(file).d(), old(file).p(), has_bones),
        old(file).moved(final(file), final(file).p()),
{
    if has_bones {
        let bone_idx = read_bone_ids(file);
        let bone_weight = read_bone_weight(file);
        let w0 = bone_weight[0].duplicate();
        let w1 = bone_weight[1].duplicate();
        let w2 = bone_weight[2].duplicate();
        let w3 = bone_weight[3].duplicate();
        let r = [
            BoneWeight { id: bone_idx[0] as i16, weight: w0 },
            BoneWeight { id: bone_idx[1] as i16, weight: w1 },
            BoneWeight { id: bone_idx[2] as i16, weight: w2 },
            BoneWeight { id: bone_idx[3] as i16, weight: w3 },
        ];
        assert(r@.map_values(|w: BoneWeight| w@) =~= weights_lines(old(file).d(), old(file).p(), true).0);
        r
    } else {
        let r = [BoneWeight::unset(), BoneWeight::unset(), BoneWeight::unset(), BoneWeight::unset()];
        assert(r@.map_values(|w: BoneWeight| w@) =~= weights_lines(old(file).d(), old(file).p(), false).0);
        r
    }
}

fn read_vertex(file: &mut FileStream, uvn: u32, has_bones: bool, flip: bool) -> (r: Vertex)
    ensures
        (r@, final(file).p()) == text_vertex_at(old(file).d(), old(file).p(), uvn as nat, has_bones, flip),
        old(file).moved(final(file), final(file).p()),
{
    let ghost d = old(file).d();
    let position = read_xyz(file);
    let normal = read_xyz(file);
    let vertex_color = read_int4(file);
    let color = [vertex_color.0 as u8, vertex_color.1 as u8, vertex_color.2 as u8, vertex_color.3 as u8];
    let ghost p0 = file.p();
    let mut uvs: Vec<UvPair> = Vec::new();
    let mut x: u32 = 0;
    while x < uvn
        invariant
            x <= uvn,
            d == old(file).d(),
            old(file).moved(file, file.p()),
            (uvs@.map_values(|u: UvPair| u@), file.p()) == uv_lines_n(d, p0, x as nat, flip),
        decreases uvn - x,
    {
        let ghost before = uvs@.map_values(|u: UvPair| u@);
        let uv = read_uv_vertex(file, flip);
        uvs.push(uv);
        x = x + 1;
        assert(uvs@.map_values(|u: UvPair| u@) =~= before.push(uv@));
    }
    let bone_weights = read_weights(file, has_bones);
    let r = Vertex { position, normal, color, uv: uvs, bone_weights };
    assert(r@.color =~= text_vertex_at(d, old(file).p(), uvn as nat, has_bones, flip).0.color);
    r
}

fn read_texture(file: &mut FileStream, tex_id: u32) -> (r: Texture)
    ensures
        (r@, final(file).p()) == text_texture_at(old(file).d(), old(file).p(), tex_id),
        old(file).moved(final(file), final(file).p()),
{
    let filename = file.read_string();
    let uv_layer_id = file.read_int();
    Texture { id: tex_id, file: filename, uv_layer: uv_layer_id as u16 }
}

/// Reads one mesh, texture file names as stored.
fn read_mesh(file: &mut FileStream, has_bones: bool, params: ImportParameters) -> (r: Mesh)
    ensures
        (r@, final(file).p()) == text_mesh_at(old(file).d(), old(file).p(), has_bones, params),
        old(file).moved(final(file), final(file).p()),
{
    let ghost d = old(file).d();
    let mut mesh_name = file.read_string();
    if mesh_name.unicode_len() == 0 {
        mesh_name = String::from_str("xxx");
        proof {
            reveal_strlit("xxx");
        }
        assert(mesh_name@ =~= placeholder());
    }
    let uv_layer_count = count_from(file.read_int());
    let texture_count = count_from(file.read_int());
    let ghost pt = file.p();
    let mut textures: Vec<Texture> = Vec::new();
    let mut tex_id: u32 = 0;
    while tex_id < texture_count
        invariant
            tex_id <= texture_count,
            d == old(file).d(),
            old(file).moved(file, file.p()),
            (textures@.map_values(|t: Texture| t@), file.p()) == text_textures_n(d, pt, tex_id as nat),
        decreases texture_count - tex_id,
    {
        let ghost before = textures@.map_values(|t: Texture| t@);
        let t = read_texture(file, tex_id);
        textures.push(t);
        tex_id = tex_id + 1;
        assert(textures@.map_values(|t: Texture| t@) =~= before.push(t@));
    }
    let vertex_count = count_from(file.read_int());
    let ghost pv = file.p();
    let mut vertices: Vec<Vertex> = Vec::new();
    let mut vid: u32 = 0;
    while vid < vertex_count
        invariant
            vid <= vertex_count,
            d == old(file).d(),
            old(file).moved(file, file.p()),
            (vertices@.map_values(|v: Vertex| v@), file.p()) == text_vertices_n(
                d,
                pv,
                vid as nat,
                uv_layer_count as nat,
                has_bones,
                params.flip_uv,
            ),
        decreases vertex_count - vid,
    {
        let ghost before = vertices@.map_values(|v: Vertex| v@);
        let v = read_vertex(file, uv_layer_count, has_bones, params.flip_uv);
        vertices.push(v);
        vid = vid + 1;
        assert(vertices@.map_values(|v: Vertex| v@) =~= before.push(v@));
    }
    let tri_count = count_from(file.read_int());
    let ghost pf = file.p();
    let mut faces: Vec<u32> = Vec::new();
    let mut tri: u32 = 0;
    while tri < tri_count
        invariant
            tri <= tri_count,
            d == old(file).d(),
            old(file).moved(file, file.p()),
            (faces@, file.p()) == text_faces_n(d, pf, tri as nat, params.reverse_winding),
        decreases tri_count - tri,
    {
        let ghost before = faces@;
        let tri_idx = read_face_indices(file);
        let a = tri_idx.0 as u32;
        let b = tri_idx.1 as u32;
        let c = tri_idx.2 as u32;
        faces.push(a);
        if params.reverse_winding {
            faces.push(c);
            faces.push(b);
        } else {
            faces.push(b);
            faces.push(c);
        }
        tri = tri + 1;
        assert(faces@ =~= before + wound(a, b, c, params.reverse_winding));
    }
    Mesh { name: mesh_name, textures, vertices, faces, uv_count: uv_layer_count }
}

/// The first meshes of a longer run are those of a shorter one.
proof fn lemma_text_meshes_prefix(d: Seq<u8>, p: int, k: nat, n: nat, has_bones: bool, params: ImportParameters)
    requires
        k <= n,
    ensures
        text_meshes_n(d, p, n, has_bones, params).0.len() == n,
        forall|j: int| 0 <= j < k ==> #[trigger] text_meshes_n(d, p, n, has_bones, params).0[j]
            == text_meshes_n(d, p, k, has_bones, params).0[j],
    decreases n,
{
    if n > 0 {
        if k < n {
            lemma_text_meshes_prefix(d, p, k, (n - 1) as nat, has_bones, params);
        } else {
            lemma_text_meshes_prefix(d, p, (n - 1) as nat, (n - 1) as nat, has_bones, params);
        }
    }
}

/// Reads the mesh section: a count line, then the meshes. Texture names lose
/// their parent directory, and one without a parent ends the read.
pub fn read_meshes(file: &mut FileStream, has_bones: bool, params: ImportParameters) -> (r: Result<Vec<Mesh>, XpsError>)
    ensures
        ({
            let (stored, end) = text_meshes_at(old(file).d(), old(file).p(), has_bones, params);
            &&& r matches Ok(ms) ==> {
                &&& ms@.len() == stored.len()
                &&& forall|k: int| 0 <= k < ms@.len() ==> mesh_renamed(stored[k], #[trigger] ms@[k]@)
                &&& old(file).moved(final(file), end)
            }
            &&& r is Ok <==> meshes_ok(stored)
            &&& r matches Err(e) ==> exists|k: int| 0 <= k < stored.len() && mesh_error(#[trigger] stored[k], e)
        }),
{
    let ghost d = old(file).d();
    let mesh_count = count_from(file.read_int());
    let ghost p0 = file.p();
    let ghost stored = text_meshes_at(d, old(file).p(), has_bones, params).0;
    let mut meshes: Vec<Mesh> = Vec::new();
    let mut i: u32 = 0;
    while i < mesh_count
        invariant
            i <= mesh_count,
            d == old(file).d(),
            p0 == next_line(d, old(file).p()),
            stored == text_meshes_n(d, p0, mesh_count as nat, has_bones, params).0,
            stored == text_meshes_at(d, old(file).p(), has_bones, params).0,
            old(file).moved(file, file.p()),
            file.p() == text_meshes_n(d, p0, i as nat, has_bones, params).1,
            meshes@.len() == i,
            forall|k: int| 0 <= k < i ==> mesh_renamed(
                text_meshes_n(d, p0, i as nat, has_bones, params).0[k],
                #[trigger] meshes@[k]@,
            ),
            forall|k: int| 0 <= k < i ==> mesh_ok(#[trigger] text_meshes_n(d, p0, i as nat, has_bones, params).0[k]),
        decreases mesh_count - i,
    {
        let ghost prev = text_meshes_n(d, p0, i as nat, has_bones, params);
        let stored_mesh = read_mesh(file, has_bones, params);
        let ghost sv = stored_mesh@;
        proof {
            lemma_text_meshes_prefix(d, p0, i as nat, (i + 1) as nat, has_bones, params);
            lemma_text_meshes_prefix(d, p0, (i + 1) as nat, mesh_count as nat, has_bones, params);
            assert(text_meshes_n(d, p0, (i + 1) as nat, has_bones, params).0 == prev.0.push(sv));
        }
        match normalize_mesh(stored_mesh) {
            Ok(m) => {
                meshes.push(m);
            },
            Err(e) => {
                assert(stored[i as int] == sv);
                assert(!meshes_ok(stored));
                return Err(e);
            },
        }
        i = i + 1;
    }
    proof {
        lemma_text_meshes_prefix(d, p0, i as nat, i as nat, has_bones, params);
        assert forall|k: int| 0 <= k < stored.len() implies mesh_ok(#[trigger] stored[k]) by {}
    }
    Ok(meshes)
}

/// The skeleton of a text model: it opens the source.
pub open spec fn model_bones(d: Seq<u8>) -> (Seq<BoneV>, int) {
    text_bones_at(d, 0)
}

/// The meshes of a text model as stored: they follow the skeleton.
pub open spec fn model_meshes(d: Seq<u8>, params: ImportParameters) -> (Seq<MeshV>, int) {
    let (bones, q) = model_bones(d);
    text_meshes_at(d, q, bones.len() > 0, params)
}

/// Decodes a text model from its bytes. It carries the default header.
pub fn read_xps_model(data: Vec<u8>, params: ImportParameters) -> (r: Result<Data, XpsError>)
    ensures
        r is Ok || r == Err::<Data, XpsError>(XpsError::MeshReadAscii),
        r matches Ok(m) ==> {
            &&& m.header@ == default_header()
            &&& m.header.poses_parsed()
            &&& m.bones@.map_values(|b: Bone| b@) == model_bones(data@).0
            &&& m.meshes@.len() == model_meshes(data@, params).0.len()
            &&& forall|k: int| 0 <= k < m.meshes@.len() ==> mesh_renamed(
                model_meshes(data@, params).0[k],
                #[trigger] m.meshes@[k]@,
            )
            &&& m.error == XpsError::NoError
        },
        r is Ok <==> meshes_ok(model_meshes(data@, params).0),
{
    let mut io_stream = FileStream::new(data, Endian::Little);
    let bones = read_bones(&mut io_stream);
    let has_bones = bones.len() > 0;
    match read_meshes(&mut io_stream, has_bones, params) {
        Ok(meshes) => Ok(Data { header: Header::default(), bones, meshes, error: XpsError::NoError }),
        Err(_) => Err(XpsError::MeshReadAscii),
    }
}

proof fn lemma_uv_lines_len(d: Seq<u8>, p: int, n: nat, flip: bool)
    ensures
        uv_lines_n(d, p, n, flip).0.len() == n,
    decreases n,
{
    if n > 0 {
        lemma_uv_lines_len(d, p, (n - 1) as nat, flip);
    }
}

proof fn lemma_text_vertex_shape(d: Seq<u8>, p: int, uvn: nat, has_bones: bool, flip: bool)
    ensures
        text_vertex_at(d, p, uvn, has_bones, flip).0.uv.len() == uvn,
        text_vertex_at(d, p, uvn, has_bones, flip).0.bone_weights.len() == 4,
{
    let p2 = next_line(d, next_line(d, p));
    lemma_uv_lines_len(d, next_line(d, p2), uvn, flip);
}

proof fn lemma_text_vertices_shape(d: Seq<u8>, p: int, n: nat, uvn: nat, has_bones: bool, flip: bool)
    ensures
        text_vertices_n(d, p, n, uvn, has_bones, flip).0.len() == n,
        forall|i: int| 0 <= i < n ==> (#[trigger] text_vertices_n(d, p, n, uvn, has_bones, flip).0[i]).uv.len()
            == uvn && text_vertices_n(d, p, n, uvn, has_bones, flip).0[i].bone_weights.len() == 4,
    decreases n,
{
    if n > 0 {
        lemma_text_vertices_shape(d, p, (n - 1) as nat, uvn, has_bones, flip);
        let q = text_vertices_n(d, p, (n - 1) as nat, uvn, has_bones, flip).1;
        lemma_text_vertex_shape(d, q, uvn, has_bones, flip);
    }
}

proof fn lemma_text_textures_ids(d: Seq<u8>, p: int, n: nat)
    requires
        n <= u32::MAX + 1,
    ensures
        text_textures_n(d, p, n).0.len() == n,
        forall|i: int| 0 <= i < n ==> (#[trigger] text_textures_n(d, p, n).0[i]).id == i,
    decreases n,
{
    if n > 0 {
        lemma_text_textures_ids(d, p, (n - 1) as nat);
    }
}

proof fn lemma_text_faces_len(d: Seq<u8>, p: int, n: nat, reverse: bool)
    ensures
        text_faces_n(d, p, n, reverse).0.len() == 3 * n,
    decreases n,
{
    if n > 0 {
        lemma_text_faces_len(d, p, (n - 1) as nat, reverse);
    }
}

/// Every mesh of the text encoding decodes to a well-formed mesh.
#[verifier::rlimit(50)]
pub proof fn lemma_text_mesh_wf(d: Seq<u8>, p: int, has_bones: bool, params: ImportParameters)
    ensures
        mesh_wf(text_mesh_at(d, p, has_bones, params).0),
{
    let p1 = next_line(d, p);
    let uvn = count_of(int_line(d, p1));
    let p2 = next_line(d, p1);
    let (textures, p3) = text_textures_n(d, next_line(d, p2), count_of(int_line(d, p2)));
    let (vertices, p4) = text_vertices_n(d, next_line(d, p3), count_of(int_line(d, p3)), uvn, has_bones, params.flip_uv);
    lemma_text_textures_ids(d, next_line(d, p2), count_of(int_line(d, p2)));
    lemma_text_vertices_shape(d, next_line(d, p3), count_of(int_line(d, p3)), uvn, has_bones, params.flip_uv);
    lemma_text_faces_len(d, next_line(d, p4), count_of(int_line(d, p4)), params.reverse_winding);
}

} // verus!
