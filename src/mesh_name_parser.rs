use vstd::prelude::*;
use crate::ascii::strings_view;
use crate::ascii_ops::{get_float, get_int, int_of, is_float_literal};
use crate::pose::{pieces, split_on};
use crate::types::{Real, RealV};

verus! {

/// The name a mesh is read under: `null` when it has none.
pub open spec fn given_name(name: Seq<char>) -> Seq<char> {
    if name.len() == 0 {
        "null"@
    } else {
        name
    }
}

/// The `_`-separated tokens of a mesh name.
pub open spec fn name_tokens(name: Seq<char>) -> Seq<Seq<char>> {
    pieces(given_name(name), '_')
}

/// Whether token `i` is there and reads as a number.
pub open spec fn param_ok(t: Seq<Seq<char>>, i: int) -> bool {
    0 <= i < t.len() && is_float_literal(t[i])
}

/// The value that rendering parameter `i` takes: the token when it reads as
/// a number; otherwise `0.1` for the specular amount, `0` for the others.
pub open spec fn param_value(t: Seq<Seq<char>>, i: int) -> RealV {
    if param_ok(t, i) {
        RealV::Decimal(t[i])
    } else if i == 2 {
        RealV::Decimal("0.1"@)
    } else {
        RealV::Bits(0)
    }
}

/// A part name that opens with `+` or `-` names an optional item.
pub open spec fn is_optional(m: Seq<char>) -> bool {
    m.len() > 0 && (m[0] == '+' || m[0] == '-')
}

/// The item part of an optional item's name.
pub open spec fn optional_part(m: Seq<char>) -> Seq<char> {
    let a = pieces(m, '.');
    if a.len() == 1 {
        m.take(1)
    } else if a.len() == 2 {
        a[1]
    } else {
        a[0]
    }
}

/// Each target preceded by an underscore, in order.
pub open spec fn underscored(ts: Seq<Seq<char>>) -> Seq<char>
    decreases ts.len(),
{
    if ts.len() == 0 {
        seq![]
    } else {
        underscored(ts.drop_last()) + "_"@ + ts.last()
    }
}

/// The rendering hints that a mesh name carries by convention:
/// `group_name_specular_bump1_bump2_camera_targets...`.
pub struct MeshNameParser {
    pub full_name: String,
    pub tokens: Vec<String>,
    pub mesh_name: String,
    pub item_name: String,
    pub item_mesh_part: String,
    pub render_group_number: String,
    pub specular_amount: Real,
    pub bump1_uv_scale: Real,
    pub bump2_uv_scale: Real,
    pub camera_name: String,
    pub camera_targets: Vec<String>,
    pub has_render_group: bool,
    pub has_parameter: bool,
    pub has_camera_targets: bool,
    pub has_specular_amount: bool,
    pub has_bump1_uv_scale: bool,
    pub has_bump2_uv_scale: bool,
    pub has_optional_items: bool,
    pub is_visible_by_default: bool,
}

/// Rendering parameter `index` and whether its token read as a number.
fn get_param(tokens: &Vec<String>, index: usize) -> (r: (Real, bool))
    requires
        2 <= index <= 4,
    ensures
        r.0@ == param_value(strings_view(tokens@), index as int),
        r.1 == param_ok(strings_view(tokens@), index as int),
{
    if index < tokens.len() {
        assert(tokens@[index as int]@ == strings_view(tokens@)[index as int]);
        let v = get_float(&tokens[index]);
        if let Real::NotANumber = v {
        } else {
            return (v, true);
        }
    }
    if index == 2 {
        (Real::Decimal(String::from_str("0.1")), false)
    } else {
        (Real::zero(), false)
    }
}

/// The tokens from `from` on.
fn tokens_from(tokens: &Vec<String>, from: usize) -> (r: Vec<String>)
    requires
        from <= tokens@.len(),
    ensures
        strings_view(r@) == strings_view(tokens@).skip(from as int),
{
    let mut r: Vec<String> = Vec::new();
    let mut i = from;
    while i < tokens.len()
        invariant
            from <= i <= tokens@.len(),
            strings_view(r@) == strings_view(tokens@).subrange(from as int, i as int),
        decreases tokens@.len() - i,
    {
        let ghost before = strings_view(r@);
        let c = tokens[i].clone();
        assert(c@ == strings_view(tokens@)[i as int]);
        r.push(c);
        assert(strings_view(r@) =~= before.push(c@));
        i = i + 1;
        assert(strings_view(r@) =~= strings_view(tokens@).subrange(from as int, i as int));
    }
    assert(strings_view(tokens@).subrange(from as int, tokens@.len() as int) =~= strings_view(tokens@).skip(
        from as int,
    ));
    r
}

impl MeshNameParser {
    /// Reads the hints of a mesh name.
    pub fn new(mesh_part_name: &String) -> (r: MeshNameParser)
        ensures
            ({
                let t = name_tokens(mesh_part_name@);
                let m = r.mesh_name@;
                &&& r.full_name@ == given_name(mesh_part_name@)
                &&& strings_view(r.tokens@) == t
                &&& r.has_render_group == (t.len() >= 2)
                &&& m == (if t.len() >= 2 {
                    t[1]
                } else {
                    given_name(mesh_part_name@)
                })
                &&& r.render_group_number@ == (if t.len() >= 2 {
                    t[0]
                } else {
                    "0"@
                })
                &&& r.has_specular_amount == (t.len() > 2 && param_ok(t, 2))
                &&& r.has_bump1_uv_scale == (t.len() > 2 && param_ok(t, 3))
                &&& r.has_bump2_uv_scale == (t.len() > 2 && param_ok(t, 4))
                &&& r.specular_amount@ == (if t.len() > 2 {
                    param_value(t, 2)
                } else {
                    RealV::Decimal("0.1"@)
                })
                &&& r.bump1_uv_scale@ == (if t.len() > 2 {
                    param_value(t, 3)
                } else {
                    RealV::Bits(0)
                })
                &&& r.bump2_uv_scale@ == (if t.len() > 2 {
                    param_value(t, 4)
                } else {
                    RealV::Bits(0)
                })
                &&& r.has_camera_targets == (t.len() > 5)
                &&& t.len() > 5 ==> r.camera_name@ == t[5] && strings_view(r.camera_targets@) == (if t.len()
                    == 6 {
                    seq!["root"@]
                } else {
                    t.skip(6)
                })
                &&& r.has_optional_items == is_optional(m)
                &&& r.is_visible_by_default == (if is_optional(m) {
                    m[0] == '+'
                } else {
                    t.len() >= 2 && t[0] != "0"@
                })
                &&& r.item_name@ == (if is_optional(m) {
                    m.take(1)
                } else {
                    m
                })
                &&& r.item_mesh_part@ == (if is_optional(m) {
                    optional_part(m)
                } else {
                    m
                })
                &&& !r.has_parameter
            }),
    {
        let name = if mesh_part_name.unicode_len() == 0 {
            String::from_str("null")
        } else {
            mesh_part_name.clone()
        };
        let tokens = split_on(name.as_str(), '_');
        let ghost t = strings_view(tokens@);
        let zero = String::from_str("0");
        let has_render_group = tokens.len() >= 2;
        let mut mesh_name = name.clone();
        let mut render_group_number = String::from_str("0");
        let mut is_visible_by_default = false;
        if has_render_group {
            assert(tokens@[0]@ == t[0] && tokens@[1]@ == t[1]);
            mesh_name = tokens[1].clone();
            render_group_number = tokens[0].clone();
            is_visible_by_default = !(tokens[0] == zero);
        }
        let mut specular_amount = Real::Decimal(String::from_str("0.1"));
        let mut bump1_uv_scale = Real::zero();
        let mut bump2_uv_scale = Real::zero();
        let mut has_specular_amount = false;
        let mut has_bump1_uv_scale = false;
        let mut has_bump2_uv_scale = false;
        if tokens.len() > 2 {
            let (v, ok) = get_param(&tokens, 2);
            specular_amount = v;
            has_specular_amount = ok;
            let (v, ok) = get_param(&tokens, 3);
            bump1_uv_scale = v;
            has_bump1_uv_scale = ok;
            let (v, ok) = get_param(&tokens, 4);
            bump2_uv_scale = v;
            has_bump2_uv_scale = ok;
        }
        let has_camera_targets = tokens.len() > 5;
        let mut camera_name = String::new();
        let mut camera_targets: Vec<String> = Vec::new();
        if has_camera_targets {
            assert(tokens@[5]@ == t[5]);
            camera_name = tokens[5].clone();
            if tokens.len() == 6 {
                camera_targets.push(String::from_str("root"));
                assert(strings_view(camera_targets@) =~= seq!["root"@]);
            } else {
                camera_targets = tokens_from(&tokens, 6);
            }
        }
        let n = mesh_name.unicode_len();
        let has_optional_items = n > 0 && (mesh_name.as_str().get_char(0) == '+' || mesh_name.as_str().get_char(0)
            == '-');
        let mut item_name = mesh_name.clone();
        let mut item_mesh_part = mesh_name.clone();
        if has_optional_items {
            is_visible_by_default = mesh_name.as_str().get_char(0) == '+';
            let string_array = split_on(mesh_name.as_str(), '.');
            let ghost a = strings_view(string_array@);
            let head = String::from_str(mesh_name.as_str().substring_char(0, 1));
            assert(head@ =~= mesh_name@.take(1));
            item_name = head.clone();
            if string_array.len() == 1 {
                item_mesh_part = head;
            } else if string_array.len() == 2 {
                assert(string_array@[1]@ == a[1]);
                item_mesh_part = string_array[1].clone();
            } else if string_array.len() > 0 {
                assert(string_array@[0]@ == a[0]);
                item_mesh_part = string_array[0].clone();
            } else {
                item_mesh_part = head;
            }
        }
        MeshNameParser {
            full_name: name,
            tokens,
            mesh_name,
            item_name,
            item_mesh_part,
            render_group_number,
            specular_amount,
            bump1_uv_scale,
            bump2_uv_scale,
            camera_name,
            camera_targets,
            has_render_group,
            has_parameter: false,
            has_camera_targets,
            has_specular_amount,
            has_bump1_uv_scale,
            has_bump2_uv_scale,
            has_optional_items,
            is_visible_by_default,
        }
    }

    /// The render-group number: the first token as an integer, 0 when it is none.
    pub fn get_render_group_number(&self) -> (r: i32)
        ensures
            r == int_of(self.render_group_number@),
    {
        get_int(&self.render_group_number)
    }

    /// The part name in normal form: an optional item is written
    /// `sign item.part`, any other part as it is.
    pub fn normalize_mesh_part_name(&self) -> (r: String)
        ensures
            r@ == (if self.has_optional_items {
                (if self.is_visible_by_default {
                    "+"@
                } else {
                    "-"@
                }) + self.item_name@ + "."@ + self.item_mesh_part@
            } else {
                self.mesh_name@
            }),
    {
        if self.has_optional_items {
            let mut s = if self.is_visible_by_default {
                String::from_str("+")
            } else {
                String::from_str("-")
            };
            s.append(self.item_name.as_str());
            s.append(".");
            s.append(self.item_mesh_part.as_str());
            s
        } else {
            self.mesh_name.clone()
        }
    }

    /// The camera targets in normal form: each preceded by an underscore;
    /// empty when the name carries no camera.
    pub fn normalize_camera_targets(&self) -> (r: String)
        ensures
            r@ == (if self.has_camera_targets {
                underscored(strings_view(self.camera_targets@))
            } else {
                seq![]
            }),
    {
        let mut s = String::new();
        if !self.has_camera_targets {
            return s;
        }
        let mut i: usize = 0;
        while i < self.camera_targets.len()
            invariant
                i <= self.camera_targets@.len(),
                s@ == underscored(strings_view(self.camera_targets@).take(i as int)),
            decreases self.camera_targets@.len() - i,
        {
            s.append("_");
            s.append(self.camera_targets[i].as_str());
            i = i + 1;
            let ghost ts = strings_view(self.camera_targets@).take(i as int);
            assert(ts.drop_last() =~= strings_view(self.camera_targets@).take(i - 1));
        }
        assert(strings_view(self.camera_targets@).take(i as int) =~= strings_view(self.camera_targets@));
        s
    }
}

} // verus!
