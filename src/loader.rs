use vstd::prelude::*;
use crate::ascii;
use crate::binary;
use crate::bin_ops::Endian;
use crate::bone_naming::{
    bone_table, bone_type_to_mecanim_name, mecanim_renamed, table_view, BoneNaming, Converter,
};
use crate::constants::MAGIC_NUMBER;
use crate::error_types::XpsError;
use crate::file_input::u32_at;
use crate::texture_path::{mesh_renamed, meshes_ok};
use crate::types::{Bone, BoneV, Data, DataV, HeaderV, ImportParameters, MeshV, default_header};

verus! {

/// The two encodings of a model.
#[derive(Clone, Copy, Debug, PartialEq, Eq, Structural)]
pub enum Format {
    /// The tokenized text encoding.
    Ascii,
    /// The versioned binary encoding.
    Binary,
}

pub open spec fn ends_with(s: Seq<char>, suffix: Seq<char>) -> bool {
    s.len() >= suffix.len() && s.skip(s.len() - suffix.len()) == suffix
}

/// The encoding that a file name's suffix selects.
pub open spec fn format_spec(name: Seq<char>) -> Option<Format> {
    if ends_with(name, ".ascii"@) {
        Some(Format::Ascii)
    } else if ends_with(name, ".mesh"@) || ends_with(name, ".xps"@) {
        Some(Format::Binary)
    } else {
        None
    }
}

/// Whether `s` ends with `suffix`.
pub fn ends_with_text(s: &str, suffix: &str) -> (r: bool)
    ensures
        r == ends_with(s@, suffix@),
{
    let n = s.unicode_len();
    let m = suffix.unicode_len();
    if m > n {
        return false;
    }
    let tail = s.substring_char(n - m, n);
    assert(tail@ =~= s@.skip(n - m));
    crate::bone_naming::same_text(tail, suffix)
}

/// The encoding that a file name's suffix selects, if any.
pub fn format_of(filename: &str) -> (r: Option<Format>)
    ensures
        r == format_spec(filename@),
{
    if ends_with_text(filename, ".ascii") {
        Some(Format::Ascii)
    } else if ends_with_text(filename, ".mesh") || ends_with_text(filename, ".xps") {
        Some(Format::Binary)
    } else {
        None
    }
}

/// The header, skeleton and stored meshes that a source of the given
/// encoding holds.
pub open spec fn layout(format: Format, d: Seq<u8>, o: Endian, params: ImportParameters) -> (HeaderV, Seq<BoneV>, Seq<MeshV>) {
    match format {
        Format::Ascii => (default_header(), ascii::model_bones(d).0, ascii::model_meshes(d, params).0),
        Format::Binary => (
            binary::header_at(d, o, 0).0,
            binary::model_bones(d, o).0,
            binary::model_meshes(d, o, params).0,
        ),
    }
}

/// `m` is what decoding the layout gives: header and skeleton as stored
/// (bone names taking their Mecanim names when `keep_names` is off), meshes
/// with their texture names renamed, no error.
pub open spec fn decoded_as(m: DataV, layout: (HeaderV, Seq<BoneV>, Seq<MeshV>), keep_names: bool) -> bool {
    let (h, bones, meshes) = layout;
    &&& m.header == h
    &&& m.bones.len() == bones.len()
    &&& forall|k: int| 0 <= k < bones.len() ==> {
        &&& (#[trigger] m.bones[k]).id == bones[k].id
        &&& m.bones[k].co == bones[k].co
        &&& m.bones[k].parent_id == bones[k].parent_id
        &&& m.bones[k].name == if keep_names {
            bones[k].name
        } else {
            mecanim_renamed(bones[k].name)
        }
    }
    &&& m.meshes.len() == meshes.len()
    &&& forall|k: int| 0 <= k < meshes.len() ==> mesh_renamed(meshes[k], #[trigger] m.meshes[k])
    &&& m.error == XpsError::NoError
}

/// Renames each bone that the table knows to its Mecanim slot name.
fn rename_bones(bones: &mut Vec<Bone>)
    ensures
        final(bones)@.len() == old(bones)@.len(),
        forall|k: int| 0 <= k < old(bones)@.len() ==> {
            &&& (#[trigger] final(bones)@[k]).id == old(bones)@[k].id
            &&& final(bones)@[k].co == old(bones)@[k].co
            &&& final(bones)@[k].parent_id == old(bones)@[k].parent_id
            &&& final(bones)@[k].name@ == mecanim_renamed(old(bones)@[k].name@)
        },
{
    let conv = Converter::new();
    let mut x: usize = 0;
    while x < bones.len()
        invariant
            x <= bones@.len(),
            bones@.len() == old(bones)@.len(),
            forall|k: int| 0 <= k < old(bones)@.len() ==> {
                &&& (#[trigger] bones@[k]).id == old(bones)@[k].id
                &&& bones@[k].co == old(bones)@[k].co
                &&& bones@[k].parent_id == old(bones)@[k].parent_id
            },
            forall|k: int| 0 <= k < x ==> (#[trigger] bones@[k]).name@ == mecanim_renamed(old(bones)@[k].name@),
            forall|k: int| x <= k < bones@.len() ==> (#[trigger] bones@[k]).name@ == old(bones)@[k].name@,
            table_view(conv.bone_dictionary@) == bone_table(),
        decreases bones@.len() - x,
    {
        let ghost before = bones@;
        if let Some(bone_type) = conv.get(bones[x].name.as_str()) {
            let mut bone = bones.remove(x);
            bone.name = String::from_str(bone_type_to_mecanim_name(bone_type));
            bones.insert(x, bone);
            assert(forall|k: int| 0 <= k < bones@.len() && k != x ==> bones@[k] == before[k]);
        }
        x = x + 1;
    }
}

/// Loads a model. The file name's suffix selects the decoder (`.ascii` for
/// text, `.mesh` or `.xps` for binary); `source` holds the file's bytes, or
/// nothing when it could not be opened; `order` is the byte order of binary
/// fields. With Mecanim naming, bones of known names take their slot names.
pub fn open(
    filename: &str,
    source: Option<Vec<u8>>,
    order: Endian,
    bone_naming: BoneNaming,
    flip_uv: bool,
    reverse_winding: bool,
) -> (r: Result<Data, XpsError>)
    ensures
        ({
            let params = ImportParameters { flip_uv, reverse_winding };
            match format_spec(filename@) {
                None => r == Err::<Data, XpsError>(XpsError::FileNotLoaded),
                Some(format) => match source {
                    None => r == Err::<Data, XpsError>(XpsError::StreamNotOpened),
                    Some(bytes) => {
                        let lay = layout(format, bytes@, order, params);
                        &&& r matches Ok(m) ==> decoded_as(m@, lay, bone_naming == BoneNaming::Default)
                            && m.header.poses_parsed()
                        &&& format == Format::Ascii ==> (r is Ok || r == Err::<Data, XpsError>(XpsError::MeshReadAscii))
                        &&& format == Format::Binary ==> (u32_at(bytes@, order, 0) != MAGIC_NUMBER <==> r
                            == Err::<Data, XpsError>(XpsError::InvalidHeader))
                        &&& format == Format::Binary ==> (r is Ok || r == Err::<Data, XpsError>(XpsError::MeshReadBin)
                            || r == Err::<Data, XpsError>(XpsError::InvalidHeader))
                        &&& (format == Format::Binary ==> u32_at(bytes@, order, 0) == MAGIC_NUMBER) ==> (r is Ok
                            <==> meshes_ok(lay.2))
                    },
                },
            }
        }),
{
    let import_parameters = ImportParameters { flip_uv, reverse_winding };
    let format = match format_of(filename) {
        Some(f) => f,
        None => {
            return Err(XpsError::FileNotLoaded);
        },
    };
    let bytes = match source {
        Some(b) => b,
        None => {
            return Err(XpsError::StreamNotOpened);
        },
    };
    let loaded = match format {
        Format::Ascii => ascii::read_xps_model(bytes, import_parameters),
        Format::Binary => binary::read_xps_model(bytes, order, import_parameters),
    };
    let mut model = match loaded {
        Ok(m) => m,
        Err(e) => {
            return Err(e);
        },
    };
    match bone_naming {
        BoneNaming::Mecanim => {
            rename_bones(&mut model.bones);
        },
        BoneNaming::Default => {},
    }
    Ok(model)
}

} // verus!
