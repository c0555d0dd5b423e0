use vstd::prelude::*;
use crate::error_types::XpsError;

verus! {

/// A scalar as the model stores it. The decoder does no floating-point
/// arithmetic: it keeps what it read, and a reader turns it into a number.
pub enum Real {
    /// An IEEE-754 binary32 bit pattern, as the binary encoding stores it.
    Bits(u32),
    /// A decimal token of the text encoding that reads as a binary32.
    Decimal(String),
    /// A token that is no number: it stands for not-a-number.
    NotANumber,
}

pub enum RealV {
    Bits(u32),
    Decimal(Seq<char>),
    NotANumber,
}

impl View for Real {
    type V = RealV;

    open spec fn view(&self) -> RealV {
        match self {
            Real::Bits(b) => RealV::Bits(*b),
            Real::Decimal(s) => RealV::Decimal(s@),
            Real::NotANumber => RealV::NotANumber,
        }
    }
}

impl Real {
    /// Positive zero.
    pub fn zero() -> (r: Real)
        ensures
            r@ == RealV::Bits(0),
    {
        Real::Bits(0)
    }

    pub fn duplicate(&self) -> (r: Real)
        ensures
            r@ == self@,
    {
        match self {
            Real::Bits(b) => Real::Bits(*b),
            Real::Decimal(s) => Real::Decimal(s.clone()),
            Real::NotANumber => Real::NotANumber,
        }
    }
}

pub open spec fn reals_view(a: Seq<Real>) -> Seq<RealV> {
    a.map_values(|r: Real| r@)
}

/// The options that shape what a decoded mesh holds.
#[derive(Clone, Copy, Debug, PartialEq, Eq, Structural)]
pub struct ImportParameters {
    /// Expose each V coordinate as `1 - v`.
    pub flip_uv: bool,
    /// Store each triangle as `a, c, b` instead of `a, b, c`.
    pub reverse_winding: bool,
}

/// One UV pair; when `flip_v` is set the exposed V coordinate is `1 - v`.
pub struct UvPair {
    pub u: Real,
    pub v: Real,
    pub flip_v: bool,
}

pub struct UvPairV {
    pub u: RealV,
    pub v: RealV,
    pub flip_v: bool,
}

impl View for UvPair {
    type V = UvPairV;

    open spec fn view(&self) -> UvPairV {
        UvPairV { u: self.u@, v: self.v@, flip_v: self.flip_v }
    }
}

pub struct Bone {
    /// The bone's place in the skeleton.
    pub id: u32,
    pub name: String,
    pub co: [Real; 3],
    /// The parent's id as the source wrote it; not checked.
    pub parent_id: i16,
}

pub struct BoneV {
    pub id: u32,
    pub name: Seq<char>,
    pub co: Seq<RealV>,
    pub parent_id: i16,
}

impl View for Bone {
    type V = BoneV;

    open spec fn view(&self) -> BoneV {
        BoneV { id: self.id, name: self.name@, co: reals_view(self.co@), parent_id: self.parent_id }
    }
}

pub struct BonePose {
    pub name: String,
    pub coordinate_delta: [Real; 3],
    pub rotation_delta: [Real; 3],
    pub scale: [Real; 3],
}

pub struct BonePoseV {
    pub name: Seq<char>,
    pub coordinate_delta: Seq<RealV>,
    pub rotation_delta: Seq<RealV>,
    pub scale: Seq<RealV>,
}

impl View for BonePose {
    type V = BonePoseV;

    open spec fn view(&self) -> BonePoseV {
        BonePoseV {
            name: self.name@,
            coordinate_delta: reals_view(self.coordinate_delta@),
            rotation_delta: reals_view(self.rotation_delta@),
            scale: reals_view(self.scale@),
        }
    }
}

pub struct BoneWeight {
    pub id: i16,
    pub weight: Real,
}

pub struct BoneWeightV {
    pub id: i16,
    pub weight: RealV,
}

impl View for BoneWeight {
    type V = BoneWeightV;

    open spec fn view(&self) -> BoneWeightV {
        BoneWeightV { id: self.id, weight: self.weight@ }
    }
}

impl BoneWeight {
    /// Bone 0 with weight 0: a slot that the source left unset.
    pub fn unset() -> (r: BoneWeight)
        ensures
            r@ == (BoneWeightV { id: 0, weight: RealV::Bits(0) }),
    {
        BoneWeight { id: 0, weight: Real::zero() }
    }
}

pub struct Vertex {
    pub position: [Real; 3],
    pub normal: [Real; 3],
    pub color: [u8; 4],
    /// One pair for each UV layer of the mesh.
    pub uv: Vec<UvPair>,
    pub bone_weights: [BoneWeight; 4],
}

pub struct VertexV {
    pub position: Seq<RealV>,
    pub normal: Seq<RealV>,
    pub color: Seq<u8>,
    pub uv: Seq<UvPairV>,
    pub bone_weights: Seq<BoneWeightV>,
}

impl View for Vertex {
    type V = VertexV;

    open spec fn view(&self) -> VertexV {
        VertexV {
            position: reals_view(self.position@),
            normal: reals_view(self.normal@),
            color: self.color@,
            uv: self.uv@.map_values(|p: UvPair| p@),
            bone_weights: self.bone_weights@.map_values(|w: BoneWeight| w@),
        }
    }
}

pub struct Texture {
    /// The texture's place in its mesh's list.
    pub id: u32,
    pub file: String,
    pub uv_layer: u16,
}

pub struct TextureV {
    pub id: u32,
    pub file: Seq<char>,
    pub uv_layer: u16,
}

impl View for Texture {
    type V = TextureV;

    open spec fn view(&self) -> TextureV {
        TextureV { id: self.id, file: self.file@, uv_layer: self.uv_layer }
    }
}

pub struct Mesh {
    pub name: String,
    pub textures: Vec<Texture>,
    pub vertices: Vec<Vertex>,
    /// Three vertex indices for each triangle.
    pub faces: Vec<u32>,
    pub uv_count: u32,
}

pub struct MeshV {
    pub name: Seq<char>,
    pub textures: Seq<TextureV>,
    pub vertices: Seq<VertexV>,
    pub faces: Seq<u32>,
    pub uv_count: u32,
}

impl View for Mesh {
    type V = MeshV;

    open spec fn view(&self) -> MeshV {
        MeshV {
            name: self.name@,
            textures: self.textures@.map_values(|t: Texture| t@),
            vertices: self.vertices@.map_values(|v: Vertex| v@),
            faces: self.faces@,
            uv_count: self.uv_count,
        }
    }
}

/// A decoded mesh is well formed: textures numbered by place, one UV pair
/// per layer in each vertex, four weight slots, three indices per triangle.
pub open spec fn mesh_wf(m: MeshV) -> bool {
    &&& forall|i: int| 0 <= i < m.textures.len() ==> (#[trigger] m.textures[i]).id == i
    &&& forall|i: int| 0 <= i < m.vertices.len() ==> (#[trigger] m.vertices[i]).uv.len() == m.uv_count
    &&& forall|i: int| 0 <= i < m.vertices.len() ==> (#[trigger] m.vertices[i]).bone_weights.len() == 4
    &&& m.faces.len() % 3 == 0
}

pub struct Header {
    pub magic_number: u32,
    pub version_mayor: u16,
    pub version_minor: u16,
    pub aral: String,
    pub settings_length: u32,
    pub machine: String,
    pub user: String,
    pub file: String,
    pub settings: String,
    /// The embedded default-pose text, empty when there is none.
    pub pose: String,
    /// The default pose that `pose` gives, one entry per bone.
    pub poses: Vec<BonePose>,
}

pub struct HeaderV {
    pub magic_number: u32,
    pub version_mayor: u16,
    pub version_minor: u16,
    pub aral: Seq<char>,
    pub settings_length: u32,
    pub machine: Seq<char>,
    pub user: Seq<char>,
    pub file: Seq<char>,
    pub settings: Seq<char>,
    pub pose: Seq<char>,
}

impl View for Header {
    type V = HeaderV;

    open spec fn view(&self) -> HeaderV {
        HeaderV {
            magic_number: self.magic_number,
            version_mayor: self.version_mayor,
            version_minor: self.version_minor,
            aral: self.aral@,
            settings_length: self.settings_length,
            machine: self.machine@,
            user: self.user@,
            file: self.file@,
            settings: self.settings@,
            pose: self.pose@,
        }
    }
}

/// The header that a model without one (a text model) carries.
pub open spec fn default_header() -> HeaderV {
    HeaderV {
        magic_number: 323232,
        version_mayor: 2,
        version_minor: 15,
        aral: seq!['X', 'N', 'A', 'a', 'r', 'a', 'L'],
        settings_length: 275,
        machine: seq![],
        user: seq![],
        file: seq![],
        settings: seq![],
        pose: seq![],
    }
}

impl Header {
    /// The pose entries are those that the pose text gives.
    pub open spec fn poses_parsed(&self) -> bool {
        crate::pose::holds_table(self.poses@, crate::pose::pose_table(self.pose@))
    }
}

impl Default for Header {
    fn default() -> (r: Header)
        ensures
            r@ == default_header(),
            r.poses_parsed(),
    {
        proof {
            crate::pose::lemma_empty_pose_table();
        }
        let aral = String::from_str("XNAaraL");
        proof {
            reveal_strlit("XNAaraL");
        }
        assert(aral@ =~= seq!['X', 'N', 'A', 'a', 'r', 'a', 'L']);
        Header {
            magic_number: 323232,
            version_mayor: 2,
            version_minor: 15,
            aral,
            settings_length: 275,
            machine: String::new(),
            user: String::new(),
            file: String::new(),
            settings: String::new(),
            pose: String::new(),
            poses: Vec::new(),
        }
    }
}

/// A decoded model.
pub struct Data {
    pub header: Header,
    pub bones: Vec<Bone>,
    pub meshes: Vec<Mesh>,
    pub error: XpsError,
}

pub struct DataV {
    pub header: HeaderV,
    pub bones: Seq<BoneV>,
    pub meshes: Seq<MeshV>,
    pub error: XpsError,
}

impl View for Data {
    type V = DataV;

    open spec fn view(&self) -> DataV {
        DataV {
            header: self.header@,
            bones: self.bones@.map_values(|b: Bone| b@),
            meshes: self.meshes@.map_values(|m: Mesh| m@),
            error: self.error,
        }
    }
}

impl Default for Data {
    /// An empty model whose outcome is not yet known.
    fn default() -> (r: Data)
        ensures
            r@.header == default_header(),
            r@.bones.len() == 0,
            r@.meshes.len() == 0,
            r.error == XpsError::Unknown,
    {
        Data { header: Header::default(), bones: Vec::new(), meshes: Vec::new(), error: XpsError::Unknown }
    }
}

} // verus!
