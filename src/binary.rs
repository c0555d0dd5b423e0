use vstd::prelude::*;
use crate::bin_ops::latin1;
use crate::constants::LIMIT;
use crate::file_input::{adv, bytes_at, line_at, line_end, u16_at, u32_at, u8_at, FileStream};
use crate::bin_ops::rounded_up;
use crate::error_types::XpsError;
use crate::pose::{holds_table, lemma_empty_pose_table, pose_data, pose_table};
use crate::texture_path::{mesh_error, mesh_ok, mesh_renamed, meshes_ok, normalize_mesh};
use crate::types::Data;
use crate::bin_ops::Endian;
use crate::constants::{MAGIC_NUMBER, ROUND_MULTIPLE};
use crate::types::{
    mesh_wf,
    Bone, BonePose, BoneV, BoneWeight, BoneWeightV, Header, HeaderV, ImportParameters, Mesh, MeshV, Real, RealV,
    Texture, TextureV, UvPair, UvPairV, Vertex, VertexV, reals_view,
};

pub use crate::bin_ops::{decode_bytes, round_to_multiple};

verus! {

/// A 32-bit float field at `p`, as its bit pattern.
pub open spec fn real_at(d: Seq<u8>, o: crate::bin_ops::Endian, p: int) -> RealV {
    RealV::Bits(u32_at(d, o, p))
}

/// The length of the string at `p` and where its bytes start: one length byte,
/// or two when the first reaches the limit, read as `b1 mod 128 + b2 * 128`.
pub open spec fn str_len_at(d: Seq<u8>, p: int) -> (int, int) {
    let b1 = u8_at(d, p);
    let p1 = adv(p, 1);
    if b1 >= 128 {
        (b1 % 128 + u8_at(d, p1) * 128, adv(p1, 1))
    } else {
        (b1 as int, p1)
    }
}

/// The length-prefixed string at `p`, and the position after it.
pub open spec fn str_at(d: Seq<u8>, p: int) -> (Seq<char>, int) {
    let (n, q) = str_len_at(d, p);
    (latin1(bytes_at(d, q, n)), adv(q, n))
}

/// Three float fields from `p`.
pub open spec fn xyz_at(d: Seq<u8>, o: crate::bin_ops::Endian, p: int) -> Seq<RealV> {
    seq![real_at(d, o, p), real_at(d, o, adv(p, 4)), real_at(d, o, adv(p, 8))]
}

/// The bone record at `p`: name, parent id, position.
pub open spec fn bone_at(d: Seq<u8>, o: crate::bin_ops::Endian, p: int, id: u32) -> (BoneV, int) {
    let (name, p1) = str_at(d, p);
    let parent = u16_at(d, o, p1) as i16;
    let p2 = adv(p1, 2);
    (BoneV { id, name, co: xyz_at(d, o, p2), parent_id: parent }, adv(p2, 12))
}

/// The first `n` bone records from `p`.
pub open spec fn bones_n(d: Seq<u8>, o: crate::bin_ops::Endian, p: int, n: nat) -> (Seq<BoneV>, int)
    decreases n,
{
    if n == 0 {
        (seq![], p)
    } else {
        let (bs, q) = bones_n(d, o, p, (n - 1) as nat);
        let (b, r) = bone_at(d, o, q, (n - 1) as u32);
        (bs.push(b), r)
    }
}

/// The skeleton section at `p`: a bone count, then the bones.
pub open spec fn bones_at(d: Seq<u8>, o: crate::bin_ops::Endian, p: int) -> (Seq<BoneV>, int) {
    bones_n(d, o, adv(p, 4), u32_at(d, o, p) as nat)
}

/// Each bone's id is its place in the skeleton.
pub proof fn lemma_bone_ids(d: Seq<u8>, o: crate::bin_ops::Endian, p: int, n: nat)
    requires
        n <= u32::MAX + 1,
    ensures
        bones_n(d, o, p, n).0.len() == n,
        forall|k: int| 0 <= k < n ==> (#[trigger] bones_n(d, o, p, n).0[k]).id == k,
    decreases n,
{
    if n > 0 {
        lemma_bone_ids(d, o, p, (n - 1) as nat);
    }
}

/// Whether files of this version carry four extra floats per UV layer.
pub open spec fn tangent_era(mayor: u16, minor: u16) -> bool {
    mayor <= 1 && minor <= 12
}

/// Reads a length-prefixed string.
fn read_files_string(file: &mut FileStream) -> (r: String)
    ensures
        r@ == str_at(old(file).d(), old(file).p()).0,
        old(file).moved(final(file), str_at(old(file).d(), old(file).p()).1),
{
    let mut length_byte2: u8 = 0;
    let length_byte1 = file.read_byte();
    if length_byte1 as usize >= LIMIT {
        length_byte2 = file.read_byte();
    }
    let length = (length_byte1 as usize % LIMIT) + (length_byte2 as usize * LIMIT);
    file.read_string_bin(length)
}

/// Reads three float fields.
fn read_xyz(file: &mut FileStream) -> (r: [Real; 3])
    ensures
        reals_view(r@) == xyz_at(old(file).d(), old(file).order, old(file).p()),
        old(file).moved(final(file), adv(old(file).p(), 12)),
{
    let x = file.read_f32();
    let y = file.read_f32();
    let z = file.read_f32();
    let r = [x, y, z];
    assert(reals_view(r@) =~= xyz_at(old(file).d(), old(file).order, old(file).p()));
    r
}

/// Whether the header's version is of the era with tangent data.
pub fn has_tangent_header(header: &Header) -> (r: bool)
    ensures
        r == tangent_era(header.version_mayor, header.version_minor),
{
    header.version_mayor <= 1 && header.version_minor <= 12
}

/// Reads the skeleton section: a bone count, then each bone's name, parent id
/// and position. Ids follow the order of reading.
fn read_bones(file: &mut FileStream) -> (r: Vec<Bone>)
    ensures
        (r@.map_values(|b: Bone| b@), final(file).p()) == bones_at(old(file).d(), old(file).order, old(file).p()),
        old(file).moved(final(file), final(file).p()),
{
    let mut bones: Vec<Bone> = Vec::new();
    let bone_count = file.read_u32();
    let ghost p0 = file.p();
    let mut bone_id: u32 = 0;
    while bone_id < bone_count
        invariant
            bone_id <= bone_count,
            old(file).moved(file, file.p()),
            bone_count == u32_at(old(file).d(), old(file).order, old(file).p()),
            p0 == adv(old(file).p(), 4),
            (bones@.map_values(|b: Bone| b@), file.p()) == bones_n(old(file).d(), old(file).order, p0, bone_id as nat),
        decreases bone_count - bone_id,
    {
        let ghost before = bones@.map_values(|b: Bone| b@);
        let bone_name = read_files_string(file);
        let parent_id = file.read_i16();
        let coords = read_xyz(file);
        let bone = Bone { id: bone_id, name: bone_name, co: coords, parent_id };
        bones.push(bone);
        bone_id = bone_id + 1;
        assert(bones@.map_values(|b: Bone| b@) =~= before.push(bone@));
    }
    bones
}

/// Where reading a line that starts at `p` leaves the position.
pub open spec fn after_line(d: Seq<u8>, p: int) -> int {
    if p < d.len() {
        line_end(d, p)
    } else {
        p
    }
}

/// `n` lines from `p`, concatenated, and the position after them.
pub open spec fn lines_n(d: Seq<u8>, p: int, n: nat) -> (Seq<char>, int)
    decreases n,
{
    if n == 0 {
        (seq![], p)
    } else {
        let (t, q) = lines_n(d, p, (n - 1) as nat);
        (t + line_at(d, q), after_line(d, q))
    }
}

/// The default-pose block at `p`: `bones` text lines when the declared
/// length is not zero, then padding up to a multiple of four bytes.
pub open spec fn pose_block_at(d: Seq<u8>, p: int, length: u32, bones: u32) -> (Seq<char>, int) {
    let (t, q) = if length > 0 {
        lines_n(d, p, bones as nat)
    } else {
        (seq![], p)
    };
    (t, adv(q, rounded_up(length as int, 4) - length))
}

/// One option of the settings block at `p`; the flag tells that it was of an
/// unknown type and consumed the rest of the block.
pub open spec fn option_at(
    d: Seq<u8>,
    o: crate::bin_ops::Endian,
    start: int,
    words: u32,
    p: int,
    pose: Seq<char>,
) -> (Seq<char>, int, bool) {
    let kind = u32_at(d, o, p);
    let count = u32_at(d, o, adv(p, 4));
    let info = u32_at(d, o, adv(p, 8));
    let q = adv(p, 12);
    if kind == 255 {
        (pose, adv(q, 4 * count), false)
    } else if kind == 2 {
        (pose, adv(q, 8 * count), false)
    } else if kind == 1 {
        let (t, r) = pose_block_at(d, q, count, info);
        (t, r, false)
    } else {
        let done = (q - start) / 4;
        (pose, if done < words {
            adv(q, 4 * (words - done))
        } else {
            q
        }, true)
    }
}

/// The first `n` options of a settings block, or those up to an unknown one.
pub open spec fn options_n(
    d: Seq<u8>,
    o: crate::bin_ops::Endian,
    start: int,
    words: u32,
    p: int,
    n: nat,
) -> (Seq<char>, int, bool)
    decreases n,
{
    if n == 0 {
        (seq![], p, false)
    } else {
        let (pose, q, stop) = options_n(d, o, start, words, p, (n - 1) as nat);
        if stop {
            (pose, q, true)
        } else {
            option_at(d, o, start, words, q, pose)
        }
    }
}

/// The settings block of a current-era header at `p`, declared `words` long:
/// a reserved word, an item count, then the items. Gives the pose text.
pub open spec fn settings_at(d: Seq<u8>, o: crate::bin_ops::Endian, p: int, words: u32) -> (Seq<char>, int) {
    let items = u32_at(d, o, adv(p, 4));
    let (pose, q, stop) = options_n(d, o, p, words, adv(p, 8), items as nat);
    (pose, q)
}

/// The header at `p` and the position after it.
pub open spec fn header_at(d: Seq<u8>, o: crate::bin_ops::Endian, p: int) -> (HeaderV, int) {
    let magic = u32_at(d, o, p);
    let p1 = adv(p, 4);
    let mayor = u16_at(d, o, p1);
    let p2 = adv(p1, 2);
    let minor = u16_at(d, o, p2);
    let p3 = adv(p2, 2);
    let (aral, p4) = str_at(d, p3);
    let words = u32_at(d, o, p4);
    let p5 = adv(p4, 4);
    let (machine, p6) = str_at(d, p5);
    let (user, p7) = str_at(d, p6);
    let (file, p8) = str_at(d, p7);
    let (pose, p9) = if tangent_era(mayor, minor) {
        (seq![], adv(p8, 4 * words))
    } else {
        settings_at(d, o, p8, words)
    };
    (
        HeaderV {
            magic_number: magic,
            version_mayor: mayor,
            version_minor: minor,
            aral,
            settings_length: words,
            machine,
            user,
            file,
            settings: seq![],
            pose,
        },
        p9,
    )
}

/// Discards `opt_count` words.
fn read_none(file: &mut FileStream, opt_count: u32)
    ensures
        old(file).moved(final(file), adv(old(file).p(), 4 * opt_count)),
{
    file.skip_units(opt_count, 4);
}

/// Discards `opt_count` pairs of words.
fn read_flags(file: &mut FileStream, optcount: u32)
    ensures
        old(file).moved(final(file), adv(old(file).p(), 8 * optcount)),
{
    file.skip_units(optcount, 8);
}

/// Reads the default-pose block: `pose_bones` lines of text when the declared
/// length is not zero, then the padding to a multiple of four bytes. Gives
/// the text and the pose it describes.
fn read_default_pose(file: &mut FileStream, pose_length_unround: u32, pose_bones: u32) -> (r: (String, Vec<BonePose>))
    ensures
        holds_table(r.1@, pose_table(r.0@)),
        (r.0@, final(file).p()) == pose_block_at(old(file).d(), old(file).p(), pose_length_unround, pose_bones),
        old(file).moved(final(file), final(file).p()),
        final(file).p() >= old(file).p(),
{
    let mut pose_text = String::new();
    if pose_length_unround > 0 {
        let mut i: u32 = 0;
        while i < pose_bones
            invariant
                i <= pose_bones,
                old(file).moved(file, file.p()),
                file.p() >= old(file).p(),
                (pose_text@, file.p()) == lines_n(old(file).d(), old(file).p(), i as nat),
            decreases pose_bones - i,
        {
            let line = file.read_line();
            pose_text.append(line.as_str());
            i = i + 1;
        }
    }
    let remainder = pose_length_unround % (ROUND_MULTIPLE as u32);
    let empty: u32 = if remainder == 0 {
        0
    } else {
        ROUND_MULTIPLE as u32 - remainder
    };
    assert(empty == rounded_up(pose_length_unround as int, 4) - pose_length_unround);
    file.skip(empty as usize);
    let poses = pose_data(&pose_text);
    (pose_text, poses)
}

/// Reads the header that starts at the current position. Versions up to
/// 1.12 skip the settings block whole; later ones read its options.
fn read_header(file: &mut FileStream) -> (r: Header)
    ensures
        (r@, final(file).p()) == header_at(old(file).d(), old(file).order, old(file).p()),
        old(file).moved(final(file), final(file).p()),
        r.poses_parsed(),
{
    let magic_number = file.read_u32();
    let version_mayor = file.read_u16();
    let version_minor = file.read_u16();
    let xna_aral = read_files_string(file);
    let settings_length = file.read_u32();
    let machine_name = read_files_string(file);
    let username = read_files_string(file);
    let files_string = read_files_string(file);
    let mut xps_pose_data = String::new();
    let mut poses: Vec<BonePose> = Vec::new();
    proof {
        lemma_empty_pose_table();
    }
    let ghost d = old(file).d();
    let ghost o = old(file).order;
    if version_mayor <= 1 && version_minor <= 12 {
        file.skip_units(settings_length, 4);
    } else {
        let start = file.position;
        let _ = file.read_u32();
        let items = file.read_u32();
        let ghost q0 = file.p();
        let mut item: u32 = 0;
        let mut stop = false;
        while item < items && !stop
            invariant
                item <= items,
                d == old(file).d(),
                o == old(file).order,
                old(file).moved(file, file.p()),
                start <= file.p(),
                holds_table(poses@, pose_table(xps_pose_data@)),
                (xps_pose_data@, file.p(), stop) == options_n(d, o, start as int, settings_length, q0, item as nat),
                items == u32_at(d, o, adv(start as int, 4)),
                q0 == adv(start as int, 8),
            decreases items - item,
        {
            let option_type = file.read_u32();
            let opt_count = file.read_u32();
            let opt_info = file.read_u32();
            if option_type == 255 {
                read_none(file, opt_count);
            } else if option_type == 2 {
                read_flags(file, opt_count);
            } else if option_type == 1 {
                let (text, table) = read_default_pose(file, opt_count, opt_info);
                xps_pose_data = text;
                poses = table;
            } else {
                let done = (file.position - start) / 4;
                if done < settings_length as usize {
                    file.skip_units(settings_length - done as u32, 4);
                }
                stop = true;
            }
            item = item + 1;
        }
        proof {
            lemma_options_stop(d, o, start as int, settings_length, q0, item as nat, items as nat);
        }
    }
    Header {
        magic_number,
        version_mayor,
        version_minor,
        aral: xna_aral,
        settings_length,
        machine: machine_name,
        user: username,
        file: files_string,
        settings: String::new(),
        pose: xps_pose_data,
        poses,
    }
}

/// Once an unknown option stopped the reading, later items change nothing.
proof fn lemma_options_stop(
    d: Seq<u8>,
    o: crate::bin_ops::Endian,
    start: int,
    words: u32,
    p: int,
    k: nat,
    n: nat,
)
    requires
        k <= n,
        k == n || options_n(d, o, start, words, p, k).2,
    ensures
        options_n(d, o, start, words, p, n) == options_n(d, o, start, words, p, k),
    decreases n - k,
{
    if k < n {
        lemma_options_stop(d, o, start, words, p, k, (n - 1) as nat);
    }
}

/// Checks the magic number at the current position, returns to the start of
/// the source and reads the header from there.
fn find_header(file: &mut FileStream) -> (r: Result<Header, XpsError>)
    ensures
        r is Ok <==> u32_at(old(file).d(), old(file).order, old(file).p()) == MAGIC_NUMBER,
        r is Err ==> r == Err::<Header, XpsError>(XpsError::InvalidHeader) && old(file).moved(final(file), 0),
        r matches Ok(h) ==> (h@, final(file).p()) == header_at(old(file).d(), old(file).order, 0)
            && old(file).moved(final(file), final(file).p()) && h.poses_parsed(),
{
    let number = file.read_u32();
    file.seek(0);
    if number as usize == MAGIC_NUMBER {
        return Ok(read_header(file));
    }
    Err(XpsError::InvalidHeader)
}

/// One UV pair at `p`; in the tangent era four discarded floats follow it.
pub open spec fn uv_at(d: Seq<u8>, o: crate::bin_ops::Endian, p: int, tangent: bool, flip: bool) -> (UvPairV, int) {
    let q = adv(p, 8);
    (
        UvPairV { u: real_at(d, o, p), v: real_at(d, o, adv(p, 4)), flip_v: flip },
        if tangent {
            adv(q, 16)
        } else {
            q
        },
    )
}

pub open spec fn uvs_n(d: Seq<u8>, o: crate::bin_ops::Endian, p: int, n: nat, tangent: bool, flip: bool) -> (Seq<UvPairV>, int)
    decreases n,
{
    if n == 0 {
        (seq![], p)
    } else {
        let (us, q) = uvs_n(d, o, p, (n - 1) as nat, tangent, flip);
        let (u, r) = uv_at(d, o, q, tangent, flip);
        (us.push(u), r)
    }
}

pub open spec fn unset_weight() -> BoneWeightV {
    BoneWeightV { id: 0, weight: RealV::Bits(0) }
}

/// The four bone-weight slots at `p`: four ids, then four weights, when the
/// model has a skeleton; four unset slots, reading nothing, when it has none.
pub open spec fn weights_at(d: Seq<u8>, o: crate::bin_ops::Endian, p: int, has_bones: bool) -> (Seq<BoneWeightV>, int) {
    if has_bones {
        let w = adv(p, 8);
        (
            seq![
                BoneWeightV { id: u16_at(d, o, p) as i16, weight: real_at(d, o, w) },
                BoneWeightV { id: u16_at(d, o, adv(p, 2)) as i16, weight: real_at(d, o, adv(w, 4)) },
                BoneWeightV { id: u16_at(d, o, adv(p, 4)) as i16, weight: real_at(d, o, adv(w, 8)) },
                BoneWeightV { id: u16_at(d, o, adv(p, 6)) as i16, weight: real_at(d, o, adv(w, 12)) },
            ],
            adv(w, 16),
        )
    } else {
        (seq![unset_weight(), unset_weight(), unset_weight(), unset_weight()], p)
    }
}

/// The vertex record at `p`: position, normal, color, UV layers, weights.
pub open spec fn vertex_at(
    d: Seq<u8>,
    o: crate::bin_ops::Endian,
    p: int,
    uvn: u32,
    tangent: bool,
    has_bones: bool,
    flip: bool,
) -> (VertexV, int) {
    let p1 = adv(p, 12);
    let p2 = adv(p1, 12);
    let color = seq![u8_at(d, p2), u8_at(d, adv(p2, 1)), u8_at(d, adv(p2, 2)), u8_at(d, adv(p2, 3))];
    let (uv, p4) = uvs_n(d, o, adv(p2, 4), uvn as nat, tangent, flip);
    let (w, p5) = weights_at(d, o, p4, has_bones);
    (
        VertexV {
            position: xyz_at(d, o, p),
            normal: xyz_at(d, o, p1),
            color,
            uv,
            bone_weights: w,
        },
        p5,
    )
}

pub open spec fn vertices_n(
    d: Seq<u8>,
    o: crate::bin_ops::Endian,
    p: int,
    n: nat,
    uvn: u32,
    tangent: bool,
    has_bones: bool,
    flip: bool,
) -> (Seq<VertexV>, int)
    decreases n,
{
    if n == 0 {
        (seq![], p)
    } else {
        let (vs, q) = vertices_n(d, o, p, (n - 1) as nat, uvn, tangent, has_bones, flip);
        let (v, r) = vertex_at(d, o, q, uvn, tangent, has_bones, flip);
        (vs.push(v), r)
    }
}

/// The texture record at `p`, its file name as stored.
pub open spec fn texture_at(d: Seq<u8>, o: crate::bin_ops::Endian, p: int, id: u32) -> (TextureV, int) {
    let (name, q) = str_at(d, p);
    (TextureV { id, file: name, uv_layer: u32_at(d, o, q) as u16 }, adv(q, 4))
}

pub open spec fn textures_n(d: Seq<u8>, o: crate::bin_ops::Endian, p: int, n: nat) -> (Seq<TextureV>, int)
    decreases n,
{
    if n == 0 {
        (seq![], p)
    } else {
        let (ts, q) = textures_n(d, o, p, (n - 1) as nat);
        let (t, r) = texture_at(d, o, q, (n - 1) as u32);
        (ts.push(t), r)
    }
}

/// A triangle's corners in stored order: `a, b, c`, or `a, c, b` reversed.
pub open spec fn wound(a: u32, b: u32, c: u32, reverse: bool) -> Seq<u32> {
    if reverse {
        seq![a, c, b]
    } else {
        seq![a, b, c]
    }
}

pub open spec fn faces_n(d: Seq<u8>, o: crate::bin_ops::Endian, p: int, n: nat, reverse: bool) -> (Seq<u32>, int)
    decreases n,
{
    if n == 0 {
        (seq![], p)
    } else {
        let (fs, q) = faces_n(d, o, p, (n - 1) as nat, reverse);
        (
            fs + wound(u32_at(d, o, q), u32_at(d, o, adv(q, 4)), u32_at(d, o, adv(q, 8)), reverse),
            adv(q, 12),
        )
    }
}

/// The name a binary mesh gets when it has none.
pub open spec fn unnamed() -> Seq<char> {
    seq!['u', 'n', 'n', 'a', 'm', 'e', 'd']
}

/// The mesh record at `p`, texture file names as stored.
pub open spec fn mesh_at(
    d: Seq<u8>,
    o: crate::bin_ops::Endian,
    p: int,
    tangent: bool,
    has_bones: bool,
    params: ImportParameters,
) -> (MeshV, int) {
    let (name, p1) = str_at(d, p);
    let uvn = u32_at(d, o, p1);
    let p2 = adv(p1, 4);
    let (textures, p3) = textures_n(d, o, adv(p2, 4), u32_at(d, o, p2) as nat);
    let (vertices, p4) = vertices_n(
        d,
        o,
        adv(p3, 4),
        u32_at(d, o, p3) as nat,
        uvn,
        tangent,
        has_bones,
        params.flip_uv,
    );
    let (faces, p5) = faces_n(d, o, adv(p4, 4), u32_at(d, o, p4) as nat, params.reverse_winding);
    (
        MeshV {
            name: if name.len() == 0 {
                unnamed()
            } else {
                name
            },
            textures,
            vertices,
            faces,
            uv_count: uvn,
        },
        p5,
    )
}

pub open spec fn meshes_n(
    d: Seq<u8>,
    o: crate::bin_ops::Endian,
    p: int,
    n: nat,
    tangent: bool,
    has_bones: bool,
    params: ImportParameters,
) -> (Seq<MeshV>, int)
    decreases n,
{
    if n == 0 {
        (seq![], p)
    } else {
        let (ms, q) = meshes_n(d, o, p, (n - 1) as nat, tangent, has_bones, params);
        let (m, r) = mesh_at(d, o, q, tangent, has_bones, params);
        (ms.push(m), r)
    }
}

/// The mesh section at `p`: a mesh count, then the meshes.
pub open spec fn meshes_at(
    d: Seq<u8>,
    o: crate::bin_ops::Endian,
    p: int,
    tangent: bool,
    has_bones: bool,
    params: ImportParameters,
) -> (Seq<MeshV>, int) {
    meshes_n(d, o, adv(p, 4), u32_at(d, o, p) as nat, tangent, has_bones, params)
}

fn read_uv(file: &mut FileStream, tangent: bool, flip: bool) -> (r: UvPair)
    ensures
        (r@, final(file).p()) == uv_at(old(file).d(), old(file).order, old(file).p(), tangent, flip),
        old(file).moved(final(file), final(file).p()),
{
    let u = file.read_f32();
    let v = file.read_f32();
    if tangent {
        file.skip(16);
    }
    UvPair { u, v, flip_v: flip }
}

fn read_weights(file: &mut FileStream, has_bones: bool) -> (r: [BoneWeight; 4])
    ensures
        (r@.map_values(|w: BoneWeight| w@), final(file).p()) == weights_at(
            old(file).d(),
            old(file).order,
            old(file).p(),
            has_bones,
        ),
        old(file).moved(final(file), final(file).p()),
{
    if has_bones {
        let i0 = file.read_i16();
        let i1 = file.read_i16();
        let i2 = file.read_i16();
        let i3 = file.read_i16();
        let w0 = file.read_f32();
        let w1 = file.read_f32();
        let w2 = file.read_f32();
        let w3 = file.read_f32();
        let r = [
            BoneWeight { id: i0, weight: w0 },
            BoneWeight { id: i1, weight: w1 },
            BoneWeight { id: i2, weight: w2 },
            BoneWeight { id: i3, weight: w3 },
        ];
        assert(r@.map_values(|w: BoneWeight| w@) =~= weights_at(old(file).d(), old(file).order, old(file).p(), true).0);
        r
    } else {
        let r = [BoneWeight::unset(), BoneWeight::unset(), BoneWeight::unset(), BoneWeight::unset()];
        assert(r@.map_values(|w: BoneWeight| w@) =~= weights_at(old(file).d(), old(file).order, old(file).p(), false).0);
        r
    }
}

fn read_vertex(file: &mut FileStream, uvn: u32, tangent: bool, has_bones: bool, flip: bool) -> (r: Vertex)
    ensures
        (r@, final(file).p()) == vertex_at(old(file).d(), old(file).order, old(file).p(), uvn, tangent, has_bones, flip),
        old(file).moved(final(file), final(file).p()),
{
    let coordinate = read_xyz(file);
    let normal = read_xyz(file);
    let c0 = file.read_byte();
    let c1 = file.read_byte();
    let c2 = file.read_byte();
    let c3 = file.read_byte();
    let vertex_color = [c0, c1, c2, c3];
    let ghost d = old(file).d();
    let ghost o = old(file).order;
    let ghost p0 = file.p();
    let mut uvs: Vec<UvPair> = Vec::new();
    let mut uvx: u32 = 0;
    while uvx < uvn
        invariant
            uvx <= uvn,
            d == old(file).d(),
            o == old(file).order,
            old(file).moved(file, file.p()),
            (uvs@.map_values(|u: UvPair| u@), file.p()) == uvs_n(d, o, p0, uvx as nat, tangent, flip),
        decreases uvn - uvx,
    {
        let ghost before = uvs@.map_values(|u: UvPair| u@);
        let uv = read_uv(file, tangent, flip);
        uvs.push(uv);
        uvx = uvx + 1;
        assert(uvs@.map_values(|u: UvPair| u@) =~= before.push(uv@));
    }
    let bone_weights = read_weights(file, has_bones);
    let r = Vertex { position: coordinate, normal, color: vertex_color, uv: uvs, bone_weights };
    assert(r@.color =~= vertex_at(d, o, old(file).p(), uvn, tangent, has_bones, flip).0.color);
    r
}

fn read_texture(file: &mut FileStream, tex_id: u32) -> (r: Texture)
    ensures
        (r@, final(file).p()) == texture_at(old(file).d(), old(file).order, old(file).p(), tex_id),
        old(file).moved(final(file), final(file).p()),
{
    let filename = read_files_string(file);
    let uv_layer_id = file.read_u32();
    Texture { id: tex_id, file: filename, uv_layer: uv_layer_id as u16 }
}

/// Reads one mesh record, texture file names as stored.
fn read_mesh(file: &mut FileStream, tangent: bool, has_bones: bool, params: ImportParameters) -> (r: Mesh)
    ensures
        (r@, final(file).p()) == mesh_at(old(file).d(), old(file).order, old(file).p(), tangent, has_bones, params),
        old(file).moved(final(file), final(file).p()),
{
    let ghost d = old(file).d();
    let ghost o = old(file).order;
    let mut mesh_name = read_files_string(file);
    if mesh_name.unicode_len() == 0 {
        mesh_name = String::from_str("unnamed");
        proof {
            reveal_strlit("unnamed");
        }
        assert(mesh_name@ =~= unnamed());
    }
    let uv_layer_count = file.read_u32();
    let tex_count = file.read_u32();
    let ghost pt = file.p();
    let mut textures: Vec<Texture> = Vec::new();
    let mut tex_id: u32 = 0;
    while tex_id < tex_count
        invariant
            tex_id <= tex_count,
            d == old(file).d(),
            o == old(file).order,
            old(file).moved(file, file.p()),
            (textures@.map_values(|t: Texture| t@), file.p()) == textures_n(d, o, pt, tex_id as nat),
        decreases tex_count - tex_id,
    {
        let ghost before = textures@.map_values(|t: Texture| t@);
        let t = read_texture(file, tex_id);
        textures.push(t);
        tex_id = tex_id + 1;
        assert(textures@.map_values(|t: Texture| t@) =~= before.push(t@));
    }
    let vertex_count = file.read_u32();
    let ghost pv = file.p();
    let mut vertices: Vec<Vertex> = Vec::new();
    let mut vid: u32 = 0;
    while vid < vertex_count
        invariant
            vid <= vertex_count,
            d == old(file).d(),
            o == old(file).order,
            old(file).moved(file, file.p()),
            (vertices@.map_values(|v: Vertex| v@), file.p()) == vertices_n(
                d,
                o,
                pv,
                vid as nat,
                uv_layer_count,
                tangent,
                has_bones,
                params.flip_uv,
            ),
        decreases vertex_count - vid,
    {
        let ghost before = vertices@.map_values(|v: Vertex| v@);
        let v = read_vertex(file, uv_layer_count, tangent, has_bones, params.flip_uv);
        vertices.push(v);
        vid = vid + 1;
        assert(vertices@.map_values(|v: Vertex| v@) =~= before.push(v@));
    }
    let tri_count = file.read_u32();
    let ghost pf = file.p();
    let mut faces: Vec<u32> = Vec::new();
    let mut tri: u32 = 0;
    while tri < tri_count
        invariant
            tri <= tri_count,
            d == old(file).d(),
            o == old(file).order,
            old(file).moved(file, file.p()),
            (faces@, file.p()) == faces_n(d, o, pf, tri as nat, params.reverse_winding),
        decreases tri_count - tri,
    {
        let ghost before = faces@;
        let a = file.read_u32();
        let b = file.read_u32();
        let c = file.read_u32();
        faces.push(a);
        if params.reverse_winding {
            faces.push(c);
            faces.push(b);
        } else {
            faces.push(b);
            faces.push(c);
        }
        tri = tri + 1;
        assert(faces@ =~= before + wound(a, b, c, params.reverse_winding));
    }
    Mesh {
        name: mesh_name,
        textures,
        vertices,
        faces,
        uv_count: uv_layer_count,
    }
}

/// Reads the mesh section. Meshes of the tangent era carry four extra floats
/// per UV layer; with a skeleton, each vertex carries bone weights. Texture
/// names lose their parent directory, and one without a parent ends the read.
pub fn read_meshes(
    file: &mut FileStream,
    header: &Header,
    has_bones: bool,
    params: ImportParameters,
) -> (r: Result<Vec<Mesh>, XpsError>)
    ensures
        ({
            let (stored, end) = meshes_at(
                old(file).d(),
                old(file).order,
                old(file).p(),
                tangent_era(header.version_mayor, header.version_minor),
                has_bones,
                params,
            );
            &&& r matches Ok(ms) ==> {
                &&& ms@.len() == stored.len()
                &&& forall|k: int| 0 <= k < ms@.len() ==> mesh_renamed(stored[k], #[trigger] ms@[k]@)
                &&& old(file).moved(final(file), end)
            }
            &&& r is Ok <==> meshes_ok(stored)
            &&& r matches Err(e) ==> exists|k: int| 0 <= k < stored.len() && mesh_error(#[trigger] stored[k], e)
        }),
{
    let has_tangent = has_tangent_header(header);
    let ghost d = old(file).d();
    let ghost o = old(file).order;
    let mesh_count = file.read_u32();
    let ghost p0 = file.p();
    let ghost stored = meshes_at(d, o, old(file).p(), has_tangent, has_bones, params).0;
    let mut meshes: Vec<Mesh> = Vec::new();
    let mut i: u32 = 0;
    while i < mesh_count
        invariant
            i <= mesh_count,
            d == old(file).d(),
            o == old(file).order,
            mesh_count == u32_at(d, o, old(file).p()),
            p0 == adv(old(file).p(), 4),
            stored == meshes_n(d, o, p0, mesh_count as nat, has_tangent, has_bones, params).0,
            stored == meshes_at(d, o, old(file).p(), has_tangent, has_bones, params).0,
            has_tangent == tangent_era(header.version_mayor, header.version_minor),
            old(file).moved(file, file.p()),
            file.p() == meshes_n(d, o, p0, i as nat, has_tangent, has_bones, params).1,
            meshes@.len() == i,
            forall|k: int| 0 <= k < i ==> mesh_renamed(
                meshes_n(d, o, p0, i as nat, has_tangent, has_bones, params).0[k],
                #[trigger] meshes@[k]@,
            ),
            forall|k: int| 0 <= k < i ==> mesh_ok(#[trigger] meshes_n(d, o, p0, i as nat, has_tangent, has_bones, params).0[k]),
        decreases mesh_count - i,
    {
        let ghost prev = meshes_n(d, o, p0, i as nat, has_tangent, has_bones, params);
        let stored_mesh = read_mesh(file, has_tangent, has_bones, params);
        let ghost sv = stored_mesh@;
        proof {
            lemma_meshes_prefix(d, o, p0, i as nat, (i + 1) as nat, has_tangent, has_bones, params);
            lemma_meshes_prefix(d, o, p0, (i + 1) as nat, mesh_count as nat, has_tangent, has_bones, params);
            assert(meshes_n(d, o, p0, (i + 1) as nat, has_tangent, has_bones, params).0 == prev.0.push(sv));
        }
        match normalize_mesh(stored_mesh) {
            Ok(m) => {
                meshes.push(m);
            },
            Err(e) => {
                assert(stored[i as int] == sv);
                assert(!meshes_ok(stored));
                return Err(e);
            },
        }
        i = i + 1;
    }
    proof {
        assert(stored == meshes_n(d, o, p0, i as nat, has_tangent, has_bones, params).0);
        lemma_meshes_prefix(d, o, p0, i as nat, i as nat, has_tangent, has_bones, params);
        assert forall|k: int| 0 <= k < stored.len() implies mesh_ok(#[trigger] stored[k]) by {
            lemma_meshes_prefix(d, o, p0, i as nat, i as nat, has_tangent, has_bones, params);
        }
    }
    Ok(meshes)
}

/// The first meshes of a longer run are those of a shorter one.
proof fn lemma_meshes_prefix(
    d: Seq<u8>,
    o: Endian,
    p: int,
    k: nat,
    n: nat,
    tangent: bool,
    has_bones: bool,
    params: ImportParameters,
)
    requires
        k <= n,
    ensures
        meshes_n(d, o, p, n, tangent, has_bones, params).0.len() == n,
        forall|j: int| 0 <= j < k ==> #[trigger] meshes_n(d, o, p, n, tangent, has_bones, params).0[j]
            == meshes_n(d, o, p, k, tangent, has_bones, params).0[j],
    decreases n,
{
    if n > 0 {
        if k < n {
            lemma_meshes_prefix(d, o, p, k, (n - 1) as nat, tangent, has_bones, params);
        } else {
            lemma_meshes_prefix(d, o, p, (n - 1) as nat, (n - 1) as nat, tangent, has_bones, params);
        }
    }
}

/// The skeleton of a binary model: it follows the header.
pub open spec fn model_bones(d: Seq<u8>, o: Endian) -> (Seq<BoneV>, int) {
    bones_at(d, o, header_at(d, o, 0).1)
}

/// The meshes of a binary model as stored: they follow the skeleton.
pub open spec fn model_meshes(d: Seq<u8>, o: Endian, params: ImportParameters) -> (Seq<MeshV>, int) {
    let h = header_at(d, o, 0).0;
    let (bones, q) = model_bones(d, o);
    meshes_at(d, o, q, tangent_era(h.version_mayor, h.version_minor), bones.len() > 0, params)
}

/// Decodes a binary model from its bytes, multi-byte fields in byte order `order`.
pub fn read_xps_model(data: Vec<u8>, order: Endian, params: ImportParameters) -> (r: Result<Data, XpsError>)
    ensures
        u32_at(data@, order, 0) != MAGIC_NUMBER ==> r == Err::<Data, XpsError>(XpsError::InvalidHeader),
        u32_at(data@, order, 0) == MAGIC_NUMBER ==> (r is Ok || r == Err::<Data, XpsError>(XpsError::MeshReadBin)),
        r matches Ok(m) ==> {
            &&& m.header@ == header_at(data@, order, 0).0
            &&& m.header.poses_parsed()
            &&& m.bones@.map_values(|b: Bone| b@) == model_bones(data@, order).0
            &&& m.meshes@.len() == model_meshes(data@, order, params).0.len()
            &&& forall|k: int| 0 <= k < m.meshes@.len() ==> mesh_renamed(
                model_meshes(data@, order, params).0[k],
                #[trigger] m.meshes@[k]@,
            )
            &&& m.error == XpsError::NoError
        },
        u32_at(data@, order, 0) == MAGIC_NUMBER ==> (r is Ok <==> meshes_ok(model_meshes(data@, order, params).0)),
{
    let mut io_stream = FileStream::new(data, order);
    match find_header(&mut io_stream) {
        Ok(header) => {
            let bones = read_bones(&mut io_stream);
            let has_bones = bones.len() > 0;
            match read_meshes(&mut io_stream, &header, has_bones, params) {
                Ok(meshes) => Ok(Data { header, bones, meshes, error: XpsError::NoError }),
                Err(_) => Err(XpsError::MeshReadBin),
            }
        },
        Err(_) => Err(XpsError::InvalidHeader),
    }
}

/// A string shorter than the limit, written as one length byte and its
/// bytes, reads back as itself, and the read ends right after it.
pub proof fn lemma_short_string_round_trip(b: Seq<u8>, rest: Seq<u8>)
    requires
        b.len() < 128,
    ensures
        str_at(seq![b.len() as u8] + b + rest, 0) == (latin1(b), b.len() + 1int),
{
    let d = seq![b.len() as u8] + b + rest;
    assert(d.subrange(1, 1 + b.len() as int) =~= b);
}

/// A string of the limit's length or longer, up to `128 * 256 - 1`, written
/// as a first byte `128 + len mod 128` and a second byte `len / 128`, then
/// its bytes, reads back as itself, and the read ends right after it.
pub proof fn lemma_long_string_round_trip(b: Seq<u8>, rest: Seq<u8>)
    requires
        128 <= b.len() <= 128 * 256 - 1,
    ensures
        str_at(seq![(b.len() % 128 + 128) as u8, (b.len() / 128) as u8] + b + rest, 0) == (
            latin1(b),
            b.len() + 2int,
        ),
{
    let d = seq![(b.len() % 128 + 128) as u8, (b.len() / 128) as u8] + b + rest;
    assert(d[0] == (b.len() % 128 + 128) as u8);
    assert(d[1] == (b.len() / 128) as u8);
    assert(((b.len() % 128 + 128) as u8) % 128 + ((b.len() / 128) as u8) * 128 == b.len());
    assert(d.subrange(2, 2 + b.len() as int) =~= b);
}

/// Where the fixed fields of the header at the start of `d` end: magic,
/// version, tool name, settings length, machine, user and file names.
pub open spec fn fields_end(d: Seq<u8>, o: Endian) -> int {
    let p4 = str_at(d, adv(adv(adv(0, 4), 2), 2)).1;
    str_at(d, str_at(d, str_at(d, adv(p4, 4)).1).1).1
}

/// A header of the tangent era ends exactly `settings_length` words after
/// its fixed fields.
pub proof fn lemma_legacy_header_extent(d: Seq<u8>, o: Endian)
    requires
        tangent_era(header_at(d, o, 0).0.version_mayor, header_at(d, o, 0).0.version_minor),
    ensures
        header_at(d, o, 0).1 == adv(fields_end(d, o), 4 * header_at(d, o, 0).0.settings_length),
{
}

/// A current-era header whose first option is of an unknown type ends
/// exactly `settings_length` words after its fixed fields, when the block
/// is declared long enough to hold that option.
pub proof fn lemma_unknown_option_header_extent(d: Seq<u8>, o: Endian)
    requires
        !tangent_era(header_at(d, o, 0).0.version_mayor, header_at(d, o, 0).0.version_minor),
        u32_at(d, o, adv(fields_end(d, o), 4)) > 0,
        ({
            let kind = u32_at(d, o, adv(fields_end(d, o), 8));
            kind != 255 && kind != 2 && kind != 1
        }),
        header_at(d, o, 0).0.settings_length >= 5,
        fields_end(d, o) + 4 * header_at(d, o, 0).0.settings_length <= usize::MAX,
    ensures
        header_at(d, o, 0).1 == fields_end(d, o) + 4 * header_at(d, o, 0).0.settings_length,
{
    let start = fields_end(d, o);
    let words = header_at(d, o, 0).0.settings_length;
    let items = u32_at(d, o, adv(start, 4));
    assert(options_n(d, o, start, words, adv(start, 8), 0) == (Seq::<char>::empty(), adv(start, 8), false));
    assert(options_n(d, o, start, words, adv(start, 8), 1) == option_at(d, o, start, words, adv(start, 8), seq![]));
    assert(options_n(d, o, start, words, adv(start, 8), 1).2);
    lemma_options_stop(d, o, start, words, adv(start, 8), 1, items as nat);
    assert(options_n(d, o, start, words, adv(start, 8), 1).1 == start + 4 * words);
}

proof fn lemma_uvs_len(d: Seq<u8>, o: Endian, p: int, n: nat, tangent: bool, flip: bool)
    ensures
        uvs_n(d, o, p, n, tangent, flip).0.len() == n,
    decreases n,
{
    if n > 0 {
        lemma_uvs_len(d, o, p, (n - 1) as nat, tangent, flip);
    }
}

proof fn lemma_vertex_shape(d: Seq<u8>, o: Endian, p: int, uvn: u32, tangent: bool, has_bones: bool, flip: bool)
    ensures
        vertex_at(d, o, p, uvn, tangent, has_bones, flip).0.uv.len() == uvn,
        vertex_at(d, o, p, uvn, tangent, has_bones, flip).0.bone_weights.len() == 4,
{
    let p2 = adv(adv(p, 12), 12);
    lemma_uvs_len(d, o, adv(p2, 4), uvn as nat, tangent, flip);
}

proof fn lemma_vertices_shape(
    d: Seq<u8>,
    o: Endian,
    p: int,
    n: nat,
    uvn: u32,
    tangent: bool,
    has_bones: bool,
    flip: bool,
)
    ensures
        vertices_n(d, o, p, n, uvn, tangent, has_bones, flip).0.len() == n,
        forall|i: int| 0 <= i < n ==> (#[trigger] vertices_n(d, o, p, n, uvn, tangent, has_bones, flip).0[i]).uv.len()
            == uvn && vertices_n(d, o, p, n, uvn, tangent, has_bones, flip).0[i].bone_weights.len() == 4,
    decreases n,
{
    if n > 0 {
        lemma_vertices_shape(d, o, p, (n - 1) as nat, uvn, tangent, has_bones, flip);
        let q = vertices_n(d, o, p, (n - 1) as nat, uvn, tangent, has_bones, flip).1;
        lemma_vertex_shape(d, o, q, uvn, tangent, has_bones, flip);
    }
}

proof fn lemma_textures_ids(d: Seq<u8>, o: Endian, p: int, n: nat)
    requires
        n <= u32::MAX + 1,
    ensures
        textures_n(d, o, p, n).0.len() == n,
        forall|i: int| 0 <= i < n ==> (#[trigger] textures_n(d, o, p, n).0[i]).id == i,
    decreases n,
{
    if n > 0 {
        lemma_textures_ids(d, o, p, (n - 1) as nat);
    }
}

proof fn lemma_faces_len(d: Seq<u8>, o: Endian, p: int, n: nat, reverse: bool)
    ensures
        faces_n(d, o, p, n, reverse).0.len() == 3 * n,
    decreases n,
{
    if n > 0 {
        lemma_faces_len(d, o, p, (n - 1) as nat, reverse);
    }
}

/// Every mesh record decodes to a well-formed mesh.
#[verifier::rlimit(50)]
pub proof fn lemma_mesh_wf(d: Seq<u8>, o: Endian, p: int, tangent: bool, has_bones: bool, params: ImportParameters)
    ensures
        mesh_wf(mesh_at(d, o, p, tangent, has_bones, params).0),
{
    let (name, p1) = str_at(d, p);
    let uvn = u32_at(d, o, p1);
    let p2 = adv(p1, 4);
    let (textures, p3) = textures_n(d, o, adv(p2, 4), u32_at(d, o, p2) as nat);
    let (vertices, p4) = vertices_n(d, o, adv(p3, 4), u32_at(d, o, p3) as nat, uvn, tangent, has_bones, params.flip_uv);
    lemma_textures_ids(d, o, adv(p2, 4), u32_at(d, o, p2) as nat);
    lemma_vertices_shape(d, o, adv(p3, 4), u32_at(d, o, p3) as nat, uvn, tangent, has_bones, params.flip_uv);
    lemma_faces_len(d, o, adv(p4, 4), u32_at(d, o, p4) as nat, params.reverse_winding);
}

} // verus!
