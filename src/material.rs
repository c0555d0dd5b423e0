use vstd::prelude::*;

verus! {

/// The rendering hints of a material preset.
pub struct RenderGroup {
    pub alpha: bool,
    pub posable: bool,
    pub specular: String,
    pub bump1_rep: bool,
    pub bump2_rep: bool,
    pub spec1_rep: bool,
    pub tex_count: i32,
    /// The role of each texture slot, in order.
    pub texture_types: Vec<String>,
}

pub struct RenderGroupV {
    pub alpha: bool,
    pub posable: bool,
    pub specular: Seq<char>,
    pub bump1_rep: bool,
    pub bump2_rep: bool,
    pub spec1_rep: bool,
    pub tex_count: i32,
    pub texture_types: Seq<Seq<char>>,
}

impl View for RenderGroup {
    type V = RenderGroupV;

    open spec fn view(&self) -> RenderGroupV {
        RenderGroupV {
            alpha: self.alpha,
            posable: self.posable,
            specular: self.specular@,
            bump1_rep: self.bump1_rep,
            bump2_rep: self.bump2_rep,
            spec1_rep: self.spec1_rep,
            tex_count: self.tex_count,
            texture_types: self.texture_types@.map_values(|t: String| t@),
        }
    }
}

/// The preset of a render-group number; numbers without one get the first
/// row's defaults: six slots, a diffuse map and five masks.
pub open spec fn preset(render_group_num: i32) -> RenderGroupV {
    match render_group_num {
        1 => RenderGroupV { alpha: false, posable: true, specular: "Yes"@, bump1_rep: true, bump2_rep: true, spec1_rep: false, tex_count: 6, texture_types: seq!["diffuse"@, "lightmap"@, "bumpmap"@, "mask"@, "bump1"@, "bump2"@] },
        2 => RenderGroupV { alpha: false, posable: true, specular: "Yes"@, bump1_rep: false, bump2_rep: false, spec1_rep: false, tex_count: 3, texture_types: seq!["diffuse"@, "lightmap"@, "bumpmap"@] },
        3 => RenderGroupV { alpha: false, posable: true, specular: "No"@, bump1_rep: false, bump2_rep: false, spec1_rep: false, tex_count: 2, texture_types: seq!["diffuse"@, "lightmap"@] },
        4 => RenderGroupV { alpha: false, posable: true, specular: "Yes"@, bump1_rep: false, bump2_rep: false, spec1_rep: false, tex_count: 2, texture_types: seq!["diffuse"@, "bumpmap"@] },
        5 => RenderGroupV { alpha: false, posable: true, specular: "No"@, bump1_rep: false, bump2_rep: false, spec1_rep: false, tex_count: 1, texture_types: seq!["diffuse"@] },
        6 => RenderGroupV { alpha: true, posable: true, specular: "Yes"@, bump1_rep: false, bump2_rep: false, spec1_rep: false, tex_count: 2, texture_types: seq!["diffuse"@, "bumpmap"@] },
        7 => RenderGroupV { alpha: true, posable: true, specular: "No"@, bump1_rep: false, bump2_rep: false, spec1_rep: false, tex_count: 1, texture_types: seq!["diffuse"@] },
        8 => RenderGroupV { alpha: true, posable: true, specular: "Yes"@, bump1_rep: false, bump2_rep: false, spec1_rep: false, tex_count: 3, texture_types: seq!["diffuse"@, "lightmap"@, "bumpmap"@] },
        9 => RenderGroupV { alpha: true, posable: true, specular: "No"@, bump1_rep: false, bump2_rep: false, spec1_rep: false, tex_count: 2, texture_types: seq!["diffuse"@, "lightmap"@] },
        10 => RenderGroupV { alpha: false, posable: true, specular: "No"@, bump1_rep: false, bump2_rep: false, spec1_rep: false, tex_count: 1, texture_types: seq!["diffuse"@] },
        11 => RenderGroupV { alpha: false, posable: false, specular: "Yes"@, bump1_rep: false, bump2_rep: false, spec1_rep: false, tex_count: 2, texture_types: seq!["diffuse"@, "bumpmap"@] },
        12 => RenderGroupV { alpha: true, posable: false, specular: "Yes"@, bump1_rep: false, bump2_rep: false, spec1_rep: false, tex_count: 2, texture_types: seq!["diffuse"@, "bumpmap"@] },
        13 => RenderGroupV { alpha: false, posable: false, specular: "No"@, bump1_rep: false, bump2_rep: false, spec1_rep: false, tex_count: 1, texture_types: seq!["diffuse"@] },
        14 => RenderGroupV { alpha: false, posable: false, specular: "Yes"@, bump1_rep: false, bump2_rep: false, spec1_rep: false, tex_count: 2, texture_types: seq!["diffuse"@, "bumpmap"@] },
        15 => RenderGroupV { alpha: true, posable: false, specular: "Yes"@, bump1_rep: false, bump2_rep: false, spec1_rep: false, tex_count: 2, texture_types: seq!["diffuse"@, "bumpmap"@] },
        16 => RenderGroupV { alpha: false, posable: false, specular: "No"@, bump1_rep: false, bump2_rep: false, spec1_rep: false, tex_count: 1, texture_types: seq!["diffuse"@] },
        17 => RenderGroupV { alpha: false, posable: false, specular: "No"@, bump1_rep: false, bump2_rep: false, spec1_rep: false, tex_count: 2, texture_types: seq!["diffuse"@, "lightmap"@] },
        18 => RenderGroupV { alpha: true, posable: false, specular: "No"@, bump1_rep: false, bump2_rep: false, spec1_rep: false, tex_count: 1, texture_types: seq!["diffuse"@] },
        19 => RenderGroupV { alpha: true, posable: false, specular: "No"@, bump1_rep: false, bump2_rep: false, spec1_rep: false, tex_count: 2, texture_types: seq!["diffuse"@, "lightmap"@] },
        20 => RenderGroupV { alpha: true, posable: true, specular: "Yes"@, bump1_rep: true, bump2_rep: true, spec1_rep: false, tex_count: 6, texture_types: seq!["diffuse"@, "lightmap"@, "bumpmap"@, "mask"@, "bump1"@, "bump2"@] },
        21 => RenderGroupV { alpha: true, posable: true, specular: "No"@, bump1_rep: false, bump2_rep: false, spec1_rep: false, tex_count: 1, texture_types: seq!["diffuse"@] },
        22 => RenderGroupV { alpha: false, posable: true, specular: "Yes"@, bump1_rep: true, bump2_rep: true, spec1_rep: false, tex_count: 7, texture_types: seq!["diffuse"@, "lightmap"@, "bumpmap"@, "mask"@, "bump1"@, "bump2"@, "specular"@] },
        23 => RenderGroupV { alpha: true, posable: true, specular: "Yes"@, bump1_rep: true, bump2_rep: true, spec1_rep: false, tex_count: 7, texture_types: seq!["diffuse"@, "lightmap"@, "bumpmap"@, "mask"@, "bump1"@, "bump2"@, "specular"@] },
        24 => RenderGroupV { alpha: false, posable: true, specular: "Yes"@, bump1_rep: false, bump2_rep: false, spec1_rep: false, tex_count: 4, texture_types: seq!["diffuse"@, "lightmap"@, "bumpmap"@, "specular"@] },
        25 => RenderGroupV { alpha: true, posable: true, specular: "Yes"@, bump1_rep: false, bump2_rep: false, spec1_rep: false, tex_count: 4, texture_types: seq!["diffuse"@, "lightmap"@, "bumpmap"@, "specular"@] },
        26 => RenderGroupV { alpha: false, posable: true, specular: "Yes intensity"@, bump1_rep: false, bump2_rep: false, spec1_rep: false, tex_count: 4, texture_types: seq!["diffuse"@, "bumpmap"@, "enviroment"@, "mask"@] },
        27 => RenderGroupV { alpha: true, posable: true, specular: "Yes intensity"@, bump1_rep: false, bump2_rep: false, spec1_rep: false, tex_count: 4, texture_types: seq!["diffuse"@, "bumpmap"@, "enviroment"@, "mask"@] },
        28 => RenderGroupV { alpha: false, posable: true, specular: "Yes intensity"@, bump1_rep: true, bump2_rep: true, spec1_rep: false, tex_count: 6, texture_types: seq!["diffuse"@, "bumpmap"@, "mask"@, "bump1"@, "bump2"@, "enviroment"@] },
        29 => RenderGroupV { alpha: true, posable: true, specular: "Yes intensity"@, bump1_rep: true, bump2_rep: true, spec1_rep: false, tex_count: 6, texture_types: seq!["diffuse"@, "bumpmap"@, "mask"@, "bump1"@, "bump2"@, "enviroment"@] },
        30 => RenderGroupV { alpha: false, posable: true, specular: "Yes intensity"@, bump1_rep: false, bump2_rep: false, spec1_rep: false, tex_count: 3, texture_types: seq!["diffuse"@, "bumpmap"@, "emission"@] },
        31 => RenderGroupV { alpha: true, posable: true, specular: "Yes intensity"@, bump1_rep: false, bump2_rep: false, spec1_rep: false, tex_count: 3, texture_types: seq!["diffuse"@, "bumpmap"@, "emission"@] },
        32 => RenderGroupV { alpha: false, posable: true, specular: "Yes"@, bump1_rep: false, bump2_rep: false, spec1_rep: false, tex_count: 1, texture_types: seq!["diffuse"@] },
        33 => RenderGroupV { alpha: true, posable: true, specular: "Yes"@, bump1_rep: false, bump2_rep: false, spec1_rep: false, tex_count: 1, texture_types: seq!["diffuse"@] },
        34 => RenderGroupV { alpha: false, posable: true, specular: "Yes"@, bump1_rep: true, bump2_rep: true, spec1_rep: false, tex_count: 6, texture_types: seq!["diffuse"@, "mask"@, "mask"@, "mask"@, "mask"@, "mask"@] },
        35 => RenderGroupV { alpha: false, posable: true, specular: "Yes"@, bump1_rep: true, bump2_rep: true, spec1_rep: false, tex_count: 6, texture_types: seq!["diffuse"@, "mask"@, "mask"@, "mask"@, "mask"@, "mask"@] },
        36 => RenderGroupV { alpha: false, posable: true, specular: "Yes intensity"@, bump1_rep: true, bump2_rep: false, spec1_rep: false, tex_count: 3, texture_types: seq!["diffuse"@, "bumpmap"@, "emission_mini_map"@] },
        37 => RenderGroupV { alpha: true, posable: true, specular: "Yes intensity"@, bump1_rep: true, bump2_rep: false, spec1_rep: false, tex_count: 3, texture_types: seq!["diffuse"@, "bumpmap"@, "emission_mini_map"@] },
        38 => RenderGroupV { alpha: false, posable: true, specular: "Yes intensity"@, bump1_rep: true, bump2_rep: false, spec1_rep: false, tex_count: 4, texture_types: seq!["diffuse"@, "bumpmap"@, "specular"@, "emission"@] },
        39 => RenderGroupV { alpha: true, posable: true, specular: "Yes intensity"@, bump1_rep: true, bump2_rep: false, spec1_rep: false, tex_count: 4, texture_types: seq!["diffuse"@, "bumpmap"@, "specular"@, "emission"@] },
        40 => RenderGroupV { alpha: false, posable: true, specular: "Yes"@, bump1_rep: false, bump2_rep: false, spec1_rep: false, tex_count: 3, texture_types: seq!["diffuse"@, "bumpmap"@, "specular"@] },
        41 => RenderGroupV { alpha: true, posable: true, specular: "Yes"@, bump1_rep: false, bump2_rep: false, spec1_rep: false, tex_count: 3, texture_types: seq!["diffuse"@, "bumpmap"@, "specular"@] },
        42 => RenderGroupV { alpha: false, posable: true, specular: "Yes"@, bump1_rep: false, bump2_rep: false, spec1_rep: true, tex_count: 3, texture_types: seq!["diffuse"@, "bumpmap"@, "specular"@] },
        43 => RenderGroupV { alpha: true, posable: true, specular: "Yes"@, bump1_rep: false, bump2_rep: false, spec1_rep: true, tex_count: 3, texture_types: seq!["diffuse"@, "bumpmap"@, "specular"@] },
        _ => RenderGroupV { alpha: false, posable: true, specular: "Yes"@, bump1_rep: true, bump2_rep: true, spec1_rep: false, tex_count: 6, texture_types: seq!["diffuse"@, "mask"@, "mask"@, "mask"@, "mask"@, "mask"@] },
    }
}

fn group(
    alpha: bool,
    posable: bool,
    specular: &'static str,
    bump1_rep: bool,
    bump2_rep: bool,
    spec1_rep: bool,
    tex_count: i32,
    types: Vec<&'static str>,
) -> (r: RenderGroup)
    ensures
        r.alpha == alpha && r.posable == posable && r@.specular == specular@,
        r.bump1_rep == bump1_rep && r.bump2_rep == bump2_rep && r.spec1_rep == spec1_rep,
        r.tex_count == tex_count,
        r@.texture_types == types@.map_values(|t: &'static str| t@),
{
    let mut texture_types: Vec<String> = Vec::new();
    let mut i: usize = 0;
    while i < types.len()
        invariant
            i <= types@.len(),
            texture_types@.map_values(|t: String| t@) == types@.take(i as int).map_values(|t: &'static str| t@),
        decreases types@.len() - i,
    {
        let ghost before = texture_types@.map_values(|t: String| t@);
        let t = String::from_str(types[i]);
        assert(t@ == types@[i as int]@);
        texture_types.push(t);
        assert(texture_types@.map_values(|t: String| t@) =~= before.push(types@[i as int]@));
        assert(types@.take(i + 1) =~= types@.take(i as int).push(types@[i as int]));
        i = i + 1;
        assert(texture_types@.map_values(|t: String| t@) =~= types@.take(i as int).map_values(|t: &'static str| t@));
    }
    assert(types@.take(i as int) =~= types@);
    RenderGroup {
        alpha,
        posable,
        specular: String::from_str(specular),
        bump1_rep,
        bump2_rep,
        spec1_rep,
        tex_count,
        texture_types,
    }
}

impl RenderGroup {
    /// The preset of a render-group number.
    pub fn new(render_group_num: i32) -> (r: RenderGroup)
        ensures
            r@ == preset(render_group_num),
            r.tex_count == r.texture_types@.len(),
    {
        let r = match render_group_num {
            1 => group(false, true, "Yes", true, true, false, 6, vec!["diffuse", "lightmap", "bumpmap", "mask", "bump1", "bump2"]),
            2 => group(false, true, "Yes", false, false, false, 3, vec!["diffuse", "lightmap", "bumpmap"]),
            3 => group(false, true, "No", false, false, false, 2, vec!["diffuse", "lightmap"]),
            4 => group(false, true, "Yes", false, false, false, 2, vec!["diffuse", "bumpmap"]),
            5 => group(false, true, "No", false, false, false, 1, vec!["diffuse"]),
            6 => group(true, true, "Yes", false, false, false, 2, vec!["diffuse", "bumpmap"]),
            7 => group(true, true, "No", false, false, false, 1, vec!["diffuse"]),
            8 => group(true, true, "Yes", false, false, false, 3, vec!["diffuse", "lightmap", "bumpmap"]),
            9 => group(true, true, "No", false, false, false, 2, vec!["diffuse", "lightmap"]),
            10 => group(false, true, "No", false, false, false, 1, vec!["diffuse"]),
            11 => group(false, false, "Yes", false, false, false, 2, vec!["diffuse", "bumpmap"]),
            12 => group(true, false, "Yes", false, false, false, 2, vec!["diffuse", "bumpmap"]),
            13 => group(false, false, "No", false, false, false, 1, vec!["diffuse"]),
            14 => group(false, false, "Yes", false, false, false, 2, vec!["diffuse", "bumpmap"]),
            15 => group(true, false, "Yes", false, false, false, 2, vec!["diffuse", "bumpmap"]),
            16 => group(false, false, "No", false, false, false, 1, vec!["diffuse"]),
            17 => group(false, false, "No", false, false, false, 2, vec!["diffuse", "lightmap"]),
            18 => group(true, false, "No", false, false, false, 1, vec!["diffuse"]),
            19 => group(true, false, "No", false, false, false, 2, vec!["diffuse", "lightmap"]),
            20 => group(true, true, "Yes", true, true, false, 6, vec!["diffuse", "lightmap", "bumpmap", "mask", "bump1", "bump2"]),
            21 => group(true, true, "No", false, false, false, 1, vec!["diffuse"]),
            22 => group(false, true, "Yes", true, true, false, 7, vec!["diffuse", "lightmap", "bumpmap", "mask", "bump1", "bump2", "specular"]),
            23 => group(true, true, "Yes", true, true, false, 7, vec!["diffuse", "lightmap", "bumpmap", "mask", "bump1", "bump2", "specular"]),
            24 => group(false, true, "Yes", false, false, false, 4, vec!["diffuse", "lightmap", "bumpmap", "specular"]),
            25 => group(true, true, "Yes", false, false, false, 4, vec!["diffuse", "lightmap", "bumpmap", "specular"]),
            26 => group(false, true, "Yes intensity", false, false, false, 4, vec!["diffuse", "bumpmap", "enviroment", "mask"]),
            27 => group(true, true, "Yes intensity", false, false, false, 4, vec!["diffuse", "bumpmap", "enviroment", "mask"]),
            28 => group(false, true, "Yes intensity", true, true, false, 6, vec!["diffuse", "bumpmap", "mask", "bump1", "bump2", "enviroment"]),
            29 => group(true, true, "Yes intensity", true, true, false, 6, vec!["diffuse", "bumpmap", "mask", "bump1", "bump2", "enviroment"]),
            30 => group(false, true, "Yes intensity", false, false, false, 3, vec!["diffuse", "bumpmap", "emission"]),
            31 => group(true, true, "Yes intensity", false, false, false, 3, vec!["diffuse", "bumpmap", "emission"]),
            32 => group(false, true, "Yes", false, false, false, 1, vec!["diffuse"]),
            33 => group(true, true, "Yes", false, false, false, 1, vec!["diffuse"]),
            34 => group(false, true, "Yes", true, true, false, 6, vec!["diffuse", "mask", "mask", "mask", "mask", "mask"]),
            35 => group(false, true, "Yes", true, true, false, 6, vec!["diffuse", "mask", "mask", "mask", "mask", "mask"]),
            36 => group(false, true, "Yes intensity", true, false, false, 3, vec!["diffuse", "bumpmap", "emission_mini_map"]),
            37 => group(true, true, "Yes intensity", true, false, false, 3, vec!["diffuse", "bumpmap", "emission_mini_map"]),
            38 => group(false, true, "Yes intensity", true, false, false, 4, vec!["diffuse", "bumpmap", "specular", "emission"]),
            39 => group(true, true, "Yes intensity", true, false, false, 4, vec!["diffuse", "bumpmap", "specular", "emission"]),
            40 => group(false, true, "Yes", false, false, false, 3, vec!["diffuse", "bumpmap", "specular"]),
            41 => group(true, true, "Yes", false, false, false, 3, vec!["diffuse", "bumpmap", "specular"]),
            42 => group(false, true, "Yes", false, false, true, 3, vec!["diffuse", "bumpmap", "specular"]),
            43 => group(true, true, "Yes", false, false, true, 3, vec!["diffuse", "bumpmap", "specular"]),
            _ => group(false, true, "Yes", true, true, false, 6, vec!["diffuse", "mask", "mask", "mask", "mask", "mask"]),
        };
        assert(r@.texture_types =~= preset(render_group_num).texture_types);
        r
    }
}

} // verus!
