use vstd::prelude::*;
use crate::ascii::{fill_array, resized, strings_view};
use crate::ascii_ops::{get_float, real_of, run_len, split_words, words};
use crate::types::{BonePose, BonePoseV};

verus! {

pub open spec fn not_newline() -> spec_fn(char) -> bool {
    |c: char| c != '\n'
}

pub open spec fn not_colon() -> spec_fn(char) -> bool {
    |c: char| c != ':'
}

/// The pieces of `s` between newlines, empty ones included.
pub open spec fn split_lines(s: Seq<char>) -> Seq<Seq<char>>
    decreases s.len(),
    via split_lines_decreases
{
    let k = run_len(s, not_newline()) as int;
    if k >= s.len() {
        seq![s]
    } else {
        seq![s.take(k)] + split_lines(s.skip(k + 1))
    }
}

#[via_fn]
proof fn split_lines_decreases(s: Seq<char>) {
    crate::ascii_ops::lemma_run_len_bound(s, not_newline());
}

pub open spec fn not_char(sep: char) -> spec_fn(char) -> bool {
    |c: char| c != sep
}

/// The pieces of `s` between occurrences of `sep`, empty ones included.
pub open spec fn pieces(s: Seq<char>, sep: char) -> Seq<Seq<char>>
    decreases s.len(),
    via pieces_decreases
{
    let k = run_len(s, not_char(sep)) as int;
    if k >= s.len() {
        seq![s]
    } else {
        seq![s.take(k)] + pieces(s.skip(k + 1), sep)
    }
}

#[via_fn]
proof fn pieces_decreases(s: Seq<char>, sep: char) {
    crate::ascii_ops::lemma_run_len_bound(s, not_char(sep));
}

/// The bone name of a pose line: the text before its first colon.
pub open spec fn pose_name(l: Seq<char>) -> Seq<char> {
    l.take(run_len(l, not_colon()) as int)
}

/// The numbers of a pose line: the tokens after its first colon,
/// padded with `1` to nine.
pub open spec fn pose_tokens(l: Seq<char>) -> Seq<Seq<char>> {
    let k = run_len(l, not_colon()) as int;
    let tail = if k < l.len() {
        l.skip(k + 1)
    } else {
        seq![]
    };
    resized(words(tail, false), 9, seq!['1'])
}

/// The pose that one line gives: three coordinate deltas, three rotation
/// deltas, three scales.
pub open spec fn pose_of(l: Seq<char>) -> BonePoseV {
    let t = pose_tokens(l);
    BonePoseV {
        name: pose_name(l),
        coordinate_delta: seq![real_of(t[0]), real_of(t[1]), real_of(t[2])],
        rotation_delta: seq![real_of(t[3]), real_of(t[4]), real_of(t[5])],
        scale: seq![real_of(t[6]), real_of(t[7]), real_of(t[8])],
    }
}

/// The poses of a run of lines by bone name, empty lines skipped, a later
/// line for a name replacing an earlier one.
pub open spec fn poses_of(lines: Seq<Seq<char>>) -> Map<Seq<char>, BonePoseV>
    decreases lines.len(),
{
    if lines.len() == 0 {
        Map::empty()
    } else {
        let m = poses_of(lines.drop_last());
        let l = lines.last();
        if l.len() == 0 {
            m
        } else {
            m.insert(pose_name(l), pose_of(l))
        }
    }
}

/// The default pose that a text gives, by bone name.
pub open spec fn pose_table(s: Seq<char>) -> Map<Seq<char>, BonePoseV> {
    poses_of(split_lines(s))
}

/// The empty text gives no pose.
pub proof fn lemma_empty_pose_table()
    ensures
        pose_table(seq![]) == Map::<Seq<char>, BonePoseV>::empty(),
{
    let e = Seq::<char>::empty();
    assert(split_lines(e) == seq![e]);
    assert(seq![e].drop_last() =~= Seq::<Seq<char>>::empty());
    assert(poses_of(seq![e]) == poses_of(Seq::<Seq<char>>::empty()));
}

/// `v` holds each name once, and holds exactly the entries of `m`.
pub open spec fn holds_table(v: Seq<BonePose>, m: Map<Seq<char>, BonePoseV>) -> bool {
    &&& forall|i: int, j: int| 0 <= i < v.len() && 0 <= j < v.len() && i != j ==> (#[trigger] v[i]).name@
        != (#[trigger] v[j]).name@
    &&& forall|i: int| 0 <= i < v.len() ==> m.contains_key((#[trigger] v[i]).name@) && m[v[i].name@] == v[i]@
    &&& forall|k: Seq<char>| #[trigger] m.contains_key(k) ==> exists|i: int| 0 <= i < v.len() && v[i].name@ == k
}

/// Index of the first `stop` character at or after `from`, or the end.
fn find_char(s: &str, n: usize, from: usize, stop: char) -> (r: usize)
    requires
        n == s@.len(),
        from <= n,
    ensures
        from <= r <= n,
        run_len(s@.skip(from as int), |c: char| c != stop) == r - from,
{
    let mut j = from;
    while j < n
        invariant
            from <= j <= n,
            n == s@.len(),
            forall|k: int| from <= k < j ==> s@[k] != stop,
        ensures
            from <= j <= n,
            forall|k: int| from <= k < j ==> s@[k] != stop,
            j == n || s@[j as int] == stop,
        decreases n - j,
    {
        if s.get_char(j) == stop {
            break;
        }
        j = j + 1;
    }
    proof {
        crate::ascii_ops::lemma_run_len(s@, |c: char| c != stop, from as int, j as int);
    }
    j
}

/// Splits `s` at each `sep`, keeping empty pieces.
pub fn split_on(s: &str, sep: char) -> (r: Vec<String>)
    ensures
        strings_view(r@) == pieces(s@, sep),
{
    let n = s.unicode_len();
    let mut out: Vec<String> = Vec::new();
    let mut i: usize = 0;
    let mut finished = false;
    assert(s@.skip(0) =~= s@);
    while !finished
        invariant
            i <= n,
            n == s@.len(),
            !finished ==> strings_view(out@) + pieces(s@.skip(i as int), sep) == pieces(s@, sep),
            finished ==> strings_view(out@) == pieces(s@, sep),
        decreases n - i + (if finished {
            0int
        } else {
            1int
        }),
    {
        let j = find_char(s, n, i, sep);
        let ghost rest = s@.skip(i as int);
        assert((|c: char| c != sep) == not_char(sep));
        let piece = String::from_str(s.substring_char(i, j));
        assert(rest.take(j - i) =~= piece@);
        let ghost before = strings_view(out@);
        out.push(piece);
        assert(strings_view(out@) =~= before.push(piece@));
        if j < n {
            assert(rest.skip(j - i + 1) =~= s@.skip(j + 1));
            assert(before.push(piece@) + pieces(s@.skip(j + 1), sep) =~= before + (seq![piece@] + pieces(
                s@.skip(j + 1),
                sep,
            )));
            i = j + 1;
        } else {
            assert(before.push(piece@) =~= before + seq![piece@]);
            i = n;
            finished = true;
        }
    }
    out
}

/// The pose one non-empty line gives.
fn pose_line(line: &str) -> (r: BonePose)
    ensures
        r@ == pose_of(line@),
{
    let n = line.unicode_len();
    let k = find_char(line, n, 0, ':');
    assert(line@.skip(0) =~= line@);
    assert((|c: char| c != ':') == not_colon());
    let name = String::from_str(line.substring_char(0, k));
    assert(line@.subrange(0, k as int) =~= pose_name(line@));
    let tail = if k < n {
        line.substring_char(k + 1, n)
    } else {
        line.substring_char(n, n)
    };
    assert(tail@ =~= (if k < n {
        line@.skip(k + 1)
    } else {
        seq![]
    }));
    let mut values = split_words(tail, false);
    let one = String::from_str("1");
    proof {
        reveal_strlit("1");
    }
    assert(one@ =~= seq!['1']);
    fill_array(&mut values, 9, one);
    assert(strings_view(values@) == pose_tokens(line@));
    assert(values@.len() >= 9);
    let ghost t = pose_tokens(line@);
    assert(forall|i: int| 0 <= i < 9 ==> #[trigger] values@[i]@ == t[i]);
    let r = BonePose {
        name,
        coordinate_delta: [get_float(&values[0]), get_float(&values[1]), get_float(&values[2])],
        rotation_delta: [get_float(&values[3]), get_float(&values[4]), get_float(&values[5])],
        scale: [get_float(&values[6]), get_float(&values[7]), get_float(&values[8])],
    };
    assert(r@.coordinate_delta =~= pose_of(line@).coordinate_delta);
    assert(r@.rotation_delta =~= pose_of(line@).rotation_delta);
    assert(r@.scale =~= pose_of(line@).scale);
    r
}

/// Where in `poses` the bone `name` stands, if it does.
fn find_pose(poses: &Vec<BonePose>, name: &String) -> (r: Option<usize>)
    ensures
        r matches Some(i) ==> i < poses@.len() && poses@[i as int].name@ == name@,
        r is None ==> forall|i: int| 0 <= i < poses@.len() ==> (#[trigger] poses@[i]).name@ != name@,
{
    let mut i: usize = 0;
    while i < poses.len()
        invariant
            i <= poses@.len(),
            forall|k: int| 0 <= k < i ==> (#[trigger] poses@[k]).name@ != name@,
        decreases poses@.len() - i,
    {
        if poses[i].name == *name {
            return Some(i);
        }
        i = i + 1;
    }
    None
}

/// Parses an embedded default pose: one `name: numbers` entry per line, the
/// numbers padded with `1` to nine. A later line for a bone replaces an
/// earlier one; each bone appears once in the result.
pub fn pose_data(string: &String) -> (r: Vec<BonePose>)
    ensures
        holds_table(r@, pose_table(string@)),
{
    let s = string.as_str();
    let n = s.unicode_len();
    let mut poses: Vec<BonePose> = Vec::new();
    let mut i: usize = 0;
    let ghost mut done: Seq<Seq<char>> = seq![];
    let mut finished = false;
    assert(s@.skip(0) =~= s@);
    while !finished
        invariant
            i <= n,
            n == s@.len(),
            s@ == string@,
            !finished ==> split_lines(string@) == done + split_lines(s@.skip(i as int)),
            finished ==> split_lines(string@) == done,
            holds_table(poses@, poses_of(done)),
        decreases n - i + (if finished {
            0int
        } else {
            1int
        }),
    {
        let j = find_char(s, n, i, '\n');
        let ghost rest = s@.skip(i as int);
        assert((|c: char| c != '\n') == not_newline());
        let piece = s.substring_char(i, j);
        assert(rest.take(j - i) =~= piece@);
        let ghost m = poses_of(done);
        proof {
            if j < n {
                assert(rest.skip(j - i + 1) =~= s@.skip(j + 1));
            }
            assert(done.push(piece@).drop_last() =~= done);
        }
        if piece.unicode_len() > 0 {
            let pose = pose_line(piece);
            let ghost mm = m.insert(pose_name(piece@), pose_of(piece@));
            let ghost before = poses@;
            assert(poses_of(done.push(piece@)) == mm);
            match find_pose(&poses, &pose.name) {
                Some(idx) => {
                    poses.set(idx, pose);
                    proof {
                        assert forall|k: Seq<char>| #[trigger] mm.contains_key(k) implies exists|x: int|
                            0 <= x < poses@.len() && poses@[x].name@ == k by {
                            if k != pose_name(piece@) {
                                let x = choose|x: int| 0 <= x < before.len() && before[x].name@ == k;
                                assert(poses@[x].name@ == k);
                            } else {
                                assert(poses@[idx as int].name@ == k);
                            }
                        }
                    }
                },
                None => {
                    poses.push(pose);
                    proof {
                        assert forall|k: Seq<char>| #[trigger] mm.contains_key(k) implies exists|x: int|
                            0 <= x < poses@.len() && poses@[x].name@ == k by {
                            if k != pose_name(piece@) {
                                let x = choose|x: int| 0 <= x < before.len() && before[x].name@ == k;
                                assert(poses@[x].name@ == k);
                            } else {
                                assert(poses@[before.len() as int].name@ == k);
                            }
                        }
                    }
                },
            }
        }
        proof {
            done = done.push(piece@);
        }
        if j < n {
            i = j + 1;
        } else {
            i = n;
            finished = true;
            assert(split_lines(string@) =~= done);
        }
    }
    poses
}

pub open spec fn not_semicolon() -> spec_fn(char) -> bool {
    |c: char| c != ';'
}

/// The first `;`-separated field of a line.
pub open spec fn first_field(l: Seq<char>) -> Seq<char> {
    l.take(run_len(l, not_semicolon()) as int)
}

/// The second `;`-separated field of a line; empty when there is none.
pub open spec fn second_field(l: Seq<char>) -> Seq<char> {
    let k = run_len(l, not_semicolon()) as int;
    if k < l.len() {
        first_field(l.skip(k + 1))
    } else {
        seq![]
    }
}

/// The renaming that a run of `old;new` lines gives, empty lines skipped,
/// a later line for a name replacing an earlier one; with `backwards`, the
/// table from new names to old ones.
pub open spec fn renames_of(lines: Seq<Seq<char>>, backwards: bool) -> Map<Seq<char>, Seq<char>>
    decreases lines.len(),
{
    if lines.len() == 0 {
        Map::empty()
    } else {
        let m = renames_of(lines.drop_last(), backwards);
        let l = lines.last();
        if l.len() == 0 {
            m
        } else if backwards {
            m.insert(second_field(l), first_field(l))
        } else {
            m.insert(first_field(l), second_field(l))
        }
    }
}

/// `v` holds each key once, and holds exactly the entries of `m`.
pub open spec fn holds_pairs(v: Seq<(String, String)>, m: Map<Seq<char>, Seq<char>>) -> bool {
    &&& forall|i: int, j: int| 0 <= i < v.len() && 0 <= j < v.len() && i != j ==> (#[trigger] v[i]).0@
        != (#[trigger] v[j]).0@
    &&& forall|i: int| 0 <= i < v.len() ==> m.contains_key((#[trigger] v[i]).0@) && m[v[i].0@] == v[i].1@
    &&& forall|k: Seq<char>| #[trigger] m.contains_key(k) ==> exists|i: int| 0 <= i < v.len() && v[i].0@ == k
}

/// Sets `key` to `value` in the table `v`.
fn put_pair(v: &mut Vec<(String, String)>, key: String, value: String, Ghost(m): Ghost<Map<Seq<char>, Seq<char>>>)
    requires
        holds_pairs(old(v)@, m),
    ensures
        holds_pairs(final(v)@, m.insert(key@, value@)),
{
    let ghost mm = m.insert(key@, value@);
    let ghost before = v@;
    let mut i: usize = 0;
    while i < v.len()
        invariant
            i <= v@.len(),
            v@ == before,
            forall|k: int| 0 <= k < i ==> (#[trigger] v@[k]).0@ != key@,
        ensures
            i <= v@.len(),
            v@ == before,
            forall|k: int| 0 <= k < i ==> (#[trigger] v@[k]).0@ != key@,
            i < v@.len() ==> v@[i as int].0@ == key@,
        decreases v@.len() - i,
    {
        if v[i].0 == key {
            break;
        }
        i = i + 1;
    }
    let found = i < v.len();
    if found {
        v.set(i, (key, value));
    } else {
        v.push((key, value));
    }
    proof {
        assert forall|k: Seq<char>| #[trigger] mm.contains_key(k) implies exists|x: int|
            0 <= x < v@.len() && v@[x].0@ == k by {
            if k != key@ {
                let x = choose|x: int| 0 <= x < before.len() && before[x].0@ == k;
                assert(v@[x].0@ == k);
            } else {
                assert(v@[i as int].0@ == k);
            }
        }
    }
}

/// The two fields of a line.
fn fields(line: &str) -> (r: (String, String))
    ensures
        r.0@ == first_field(line@),
        r.1@ == second_field(line@),
{
    let n = line.unicode_len();
    let k = find_char(line, n, 0, ';');
    assert(line@.skip(0) =~= line@);
    assert((|c: char| c != ';') == not_semicolon());
    let first = String::from_str(line.substring_char(0, k));
    assert(line@.subrange(0, k as int) =~= first_field(line@));
    if k < n {
        let rest = line.substring_char(k + 1, n);
        assert(rest@ =~= line@.skip(k + 1));
        let m = rest.unicode_len();
        let e = find_char(rest, m, 0, ';');
        assert(rest@.skip(0) =~= rest@);
        let second = String::from_str(rest.substring_char(0, e));
        assert(rest@.subrange(0, e as int) =~= first_field(rest@));
        (first, second)
    } else {
        (first, String::new())
    }
}

/// Parses a bone renaming: one `old;new` entry per line. Gives the table
/// from old names to new ones and the table back; a later line for a name
/// replaces an earlier one, and each name appears once in a table.
pub fn bone_dict_data(string: &String) -> (r: (Vec<(String, String)>, Vec<(String, String)>))
    ensures
        holds_pairs(r.0@, renames_of(split_lines(string@), false)),
        holds_pairs(r.1@, renames_of(split_lines(string@), true)),
{
    let s = string.as_str();
    let n = s.unicode_len();
    let mut rename: Vec<(String, String)> = Vec::new();
    let mut restore: Vec<(String, String)> = Vec::new();
    let mut i: usize = 0;
    let ghost mut done: Seq<Seq<char>> = seq![];
    let mut finished = false;
    assert(s@.skip(0) =~= s@);
    while !finished
        invariant
            i <= n,
            n == s@.len(),
            s@ == string@,
            !finished ==> split_lines(string@) == done + split_lines(s@.skip(i as int)),
            finished ==> split_lines(string@) == done,
            holds_pairs(rename@, renames_of(done, false)),
            holds_pairs(restore@, renames_of(done, true)),
        decreases n - i + (if finished {
            0int
        } else {
            1int
        }),
    {
        let j = find_char(s, n, i, '\n');
        let ghost rest = s@.skip(i as int);
        assert((|c: char| c != '\n') == not_newline());
        let piece = s.substring_char(i, j);
        assert(rest.take(j - i) =~= piece@);
        proof {
            if j < n {
                assert(rest.skip(j - i + 1) =~= s@.skip(j + 1));
            }
            assert(done.push(piece@).drop_last() =~= done);
        }
        if piece.unicode_len() > 0 {
            let (old_name, new_name) = fields(piece);
            put_pair(&mut rename, old_name.clone(), new_name.clone(), Ghost(renames_of(done, false)));
            put_pair(&mut restore, new_name, old_name, Ghost(renames_of(done, true)));
        }
        proof {
            done = done.push(piece@);
        }
        if j < n {
            i = j + 1;
        } else {
            i = n;
            finished = true;
            assert(split_lines(string@) =~= done);
        }
    }
    (rename, restore)
}

/// The renaming tables of a source, or empty tables when it could not be read.
pub fn read_bone_dict(source: Option<&String>) -> (r: (Vec<(String, String)>, Vec<(String, String)>))
    ensures
        source matches Some(s) ==> holds_pairs(r.0@, renames_of(split_lines(s@), false)) && holds_pairs(
            r.1@,
            renames_of(split_lines(s@), true),
        ),
        source is None ==> r.0@.len() == 0 && r.1@.len() == 0,
{
    match source {
        Some(s) => bone_dict_data(s),
        None => (Vec::new(), Vec::new()),
    }
}

} // verus!
