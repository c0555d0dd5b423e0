use vstd::prelude::*;
use crate::bin_ops::push_char;
use crate::error_types::XpsError;
use crate::types::{Mesh, MeshV, Texture, TextureV, mesh_wf};

verus! {

/// `s` with every non-overlapping occurrence of `pat` removed, leftmost
/// first; an empty pattern removes nothing.
pub open spec fn remove_all(s: Seq<char>, pat: Seq<char>) -> Seq<char>
    decreases s.len(),
{
    if pat.len() == 0 || s.len() < pat.len() {
        s
    } else if s.take(pat.len() as int) == pat {
        remove_all(s.skip(pat.len() as int), pat)
    } else {
        seq![s[0]] + remove_all(s.drop_first(), pat)
    }
}

pub open spec fn is_path_sep(c: char) -> bool {
    c == '/' || c == '\\'
}

/// `s` without its path separators.
pub open spec fn strip_separators(s: Seq<char>) -> Seq<char>
    decreases s.len(),
{
    if s.len() == 0 {
        seq![]
    } else if is_path_sep(s.last()) {
        strip_separators(s.drop_last())
    } else {
        strip_separators(s.drop_last()).push(s.last())
    }
}

/// The stored texture name `file` without its parent directory `parent` and
/// without separators.
pub open spec fn base_name(file: Seq<char>, parent: Seq<char>) -> Seq<char> {
    strip_separators(remove_all(file, parent))
}

/// What a texture name becomes, given what asking for its parent directory
/// gave: none, one that is no text, or one.
pub open spec fn texture_name_result(file: Seq<char>, parent: Option<Option<Seq<char>>>) -> Result<Seq<char>, XpsError> {
    match parent {
        None => Err(XpsError::PathGetParent),
        Some(None) => Err(XpsError::PathToStr),
        Some(Some(p)) => Ok(base_name(file, p)),
    }
}

pub open spec fn parent_view(parent: Option<Option<String>>) -> Option<Option<Seq<char>>> {
    match parent {
        None => None,
        Some(None) => Some(None),
        Some(Some(p)) => Some(Some(p@)),
    }
}

/// What asking for the parent directory of a path gives: none, one that is
/// no text, or one.
pub uninterp spec fn parent_of(s: Seq<char>) -> Option<Option<Seq<char>>>;

/// What a stored texture name becomes.
pub open spec fn texture_outcome(file: Seq<char>) -> Result<Seq<char>, XpsError> {
    texture_name_result(file, parent_of(file))
}

/// Whether a stored texture's name has a parent directory written as text.
pub open spec fn texture_ok(t: TextureV) -> bool {
    texture_outcome(t.file) is Ok
}

/// The texture with its stored name turned into its texture name.
pub open spec fn renamed_texture(t: TextureV) -> TextureV {
    TextureV { id: t.id, file: texture_outcome(t.file)->Ok_0, uv_layer: t.uv_layer }
}

/// A texture as renamed from the one stored: same id and layer, its file
/// name without its parent directory.
pub open spec fn texture_renamed(stored: TextureV, t: TextureV) -> bool {
    t == renamed_texture(stored)
}

/// A mesh as renamed from the one stored: its textures renamed, the rest unchanged.
pub open spec fn mesh_renamed(stored: MeshV, m: MeshV) -> bool {
    &&& m.name == stored.name
    &&& m.vertices == stored.vertices
    &&& m.faces == stored.faces
    &&& m.uv_count == stored.uv_count
    &&& m.textures.len() == stored.textures.len()
    &&& forall|i: int| 0 <= i < m.textures.len() ==> texture_renamed(stored.textures[i], #[trigger] m.textures[i])
}

/// Whether every texture name of the mesh can be turned.
pub open spec fn mesh_ok(m: MeshV) -> bool {
    forall|j: int| 0 <= j < m.textures.len() ==> texture_ok(#[trigger] m.textures[j])
}

/// Whether every texture name of every mesh can be turned.
pub open spec fn meshes_ok(ms: Seq<MeshV>) -> bool {
    forall|k: int| 0 <= k < ms.len() ==> mesh_ok(#[trigger] ms[k])
}

/// Whether turning one of the mesh's texture names gives the error `e`.
pub open spec fn mesh_error(m: MeshV, e: XpsError) -> bool {
    exists|j: int| 0 <= j < m.textures.len() && texture_outcome((#[trigger] m.textures[j]).file) == Err::<
        Seq<char>,
        XpsError,
    >(e)
}

/// Renaming textures keeps a mesh well formed.
pub proof fn lemma_renamed_wf(stored: MeshV, m: MeshV)
    requires
        mesh_wf(stored),
        mesh_renamed(stored, m),
    ensures
        mesh_wf(m),
{
    assert forall|i: int| 0 <= i < m.textures.len() implies (#[trigger] m.textures[i]).id == i by {
        assert(texture_renamed(stored.textures[i], m.textures[i]));
    }
}

/// Relies on std's `Path::parent` (and `Path::to_str` on its result): the
/// path without its final component, a function of the path alone; none for
/// the empty path; a parent is a prefix of the path.
#[verifier::external_body]
fn path_parent(filename: &str) -> (r: Option<Option<String>>)
    ensures
        parent_view(r) == parent_of(filename@),
        filename@.len() == 0 ==> r is None,
        r matches Some(Some(p)) ==> p@.len() <= filename@.len() && p@ == filename@.take(p@.len() as int),
{
    match std::path::Path::new(filename).parent() {
        None => None,
        Some(p) => match p.to_str() {
            None => Some(None),
            Some(t) => Some(Some(t.to_string())),
        },
    }
}

/// Whether `pat` occurs in `s` at `i`.
fn occurs_at(s: &str, n: usize, i: usize, pat: &str, m: usize) -> (r: bool)
    requires
        n == s@.len(),
        m == pat@.len(),
        i + m <= n,
    ensures
        r == (s@.subrange(i as int, i + m) == pat@),
{
    let mut k: usize = 0;
    while k < m
        invariant
            k <= m,
            i + m <= n,
            n == s@.len(),
            m == pat@.len(),
            s@.subrange(i as int, i + k) == pat@.take(k as int),
        decreases m - k,
    {
        if s.get_char(i + k) != pat.get_char(k) {
            assert(s@.subrange(i as int, i + m)[k as int] != pat@[k as int]);
            return false;
        }
        k = k + 1;
        assert(s@.subrange(i as int, i + k) =~= pat@.take(k as int));
    }
    assert(s@.subrange(i as int, i + m) =~= pat@);
    true
}

/// `s` with every occurrence of `pat` removed, leftmost first.
pub fn remove_all_of(s: &str, pat: &str) -> (r: String)
    ensures
        r@ == remove_all(s@, pat@),
{
    let n = s.unicode_len();
    let m = pat.unicode_len();
    if m == 0 {
        return String::from_str(s);
    }
    let mut out = String::new();
    let mut i: usize = 0;
    assert(s@.skip(0) =~= s@);
    while i < n
        invariant
            i <= n,
            n == s@.len(),
            m == pat@.len(),
            m > 0,
            out@ + remove_all(s@.skip(i as int), pat@) == remove_all(s@, pat@),
        decreases n - i,
    {
        let ghost rest = s@.skip(i as int);
        if m <= n - i && occurs_at(s, n, i, pat, m) {
            assert(rest.take(m as int) =~= s@.subrange(i as int, i + m));
            assert(rest.skip(m as int) =~= s@.skip(i + m));
            i = i + m;
        } else {
            let c = s.get_char(i);
            if m <= n - i {
                assert(rest.take(m as int) =~= s@.subrange(i as int, i + m));
            }
            assert(rest.drop_first() =~= s@.skip(i + 1));
            let ghost before = out@;
            push_char(&mut out, c);
            assert(before + (seq![c] + remove_all(s@.skip(i + 1), pat@)) =~= out@ + remove_all(
                s@.skip(i + 1),
                pat@,
            ));
            i = i + 1;
        }
    }
    assert(s@.skip(n as int) =~= Seq::<char>::empty());
    assert(out@ + seq![] =~= out@);
    out
}

/// `s` without its path separators.
pub fn strip_path_separators(s: &str) -> (r: String)
    ensures
        r@ == strip_separators(s@),
{
    let n = s.unicode_len();
    let mut out = String::new();
    let mut i: usize = 0;
    assert(s@.take(0) =~= Seq::<char>::empty());
    while i < n
        invariant
            i <= n,
            n == s@.len(),
            out@ == strip_separators(s@.take(i as int)),
        decreases n - i,
    {
        let c = s.get_char(i);
        assert(s@.take(i + 1).drop_last() =~= s@.take(i as int));
        if !(c == '/' || c == '\\') {
            push_char(&mut out, c);
        }
        i = i + 1;
    }
    assert(s@.take(n as int) =~= s@);
    out
}

/// The texture name that a stored name becomes, given what asking for its
/// parent directory gave.
pub fn texture_name_from(filename: &String, parent: Option<Option<String>>) -> (r: Result<String, XpsError>)
    ensures
        r matches Ok(t) ==> texture_name_result(filename@, parent_view(parent)) == Ok::<Seq<char>, XpsError>(t@),
        r matches Err(e) ==> texture_name_result(filename@, parent_view(parent)) == Err::<Seq<char>, XpsError>(e),
{
    match parent {
        None => Err(XpsError::PathGetParent),
        Some(None) => Err(XpsError::PathToStr),
        Some(Some(p)) => {
            let removed = remove_all_of(filename.as_str(), p.as_str());
            Ok(strip_path_separators(removed.as_str()))
        },
    }
}

/// The texture name that a stored name becomes: the name without its parent
/// directory and without separators.
pub fn texture_file(filename: &String) -> (r: Result<String, XpsError>)
    ensures
        r matches Ok(t) ==> texture_outcome(filename@) == Ok::<Seq<char>, XpsError>(t@),
        r matches Err(e) ==> texture_outcome(filename@) == Err::<Seq<char>, XpsError>(e),
{
    let parent = path_parent(filename.as_str());
    texture_name_from(filename, parent)
}

/// The mesh with each texture's stored name turned into its texture name;
/// the first name that cannot be turned ends it with that error.
pub fn normalize_mesh(m: Mesh) -> (r: Result<Mesh, XpsError>)
    ensures
        r is Ok <==> mesh_ok(m@),
        r matches Ok(n) ==> mesh_renamed(m@, n@),
        r matches Err(e) ==> mesh_error(m@, e),
{
    let ghost mv = m@;
    let Mesh { name, textures, vertices, faces, uv_count } = m;
    let mut renamed: Vec<Texture> = Vec::new();
    let mut j: usize = 0;
    while j < textures.len()
        invariant
            j <= textures@.len(),
            mv == m@,
            mv.textures == textures@.map_values(|t: Texture| t@),
            renamed@.len() == j,
            forall|k: int| 0 <= k < j ==> texture_renamed(mv.textures[k], #[trigger] renamed@[k]@),
            forall|k: int| 0 <= k < j ==> texture_ok(#[trigger] mv.textures[k]),
        decreases textures@.len() - j,
    {
        assert(mv.textures[j as int] == textures@[j as int]@);
        let res = texture_file(&textures[j].file);
        let file = match res {
            Ok(f) => f,
            Err(e) => {
                assert(!texture_ok(mv.textures[j as int]));
                return Err(e);
            },
        };
        let t = Texture { id: textures[j].id, file, uv_layer: textures[j].uv_layer };
        assert(texture_renamed(mv.textures[j as int], t@));
        let ghost before = renamed@;
        renamed.push(t);
        assert(forall|k: int| 0 <= k < j ==> renamed@[k] == before[k]);
        j = j + 1;
    }
    Ok(Mesh { name, textures: renamed, vertices, faces, uv_count })
}

} // verus!
