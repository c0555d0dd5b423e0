use vstd::prelude::*;
use crate::types::{Real, RealV};

verus! {

/// Unicode white space, as `char::is_whitespace` has it.
pub open spec fn is_ws(c: char) -> bool {
    ('\u{9}' <= c && c <= '\u{d}') || c == ' ' || c == '\u{85}' || c == '\u{a0}' || c
        == '\u{1680}' || ('\u{2000}' <= c && c <= '\u{200a}') || c == '\u{2028}' || c
        == '\u{2029}' || c == '\u{202f}' || c == '\u{205f}' || c == '\u{3000}'
}

/// A character that separates tokens; with `hash`, the comment marker does too.
pub open spec fn is_sep(c: char, hash: bool) -> bool {
    is_ws(c) || (hash && c == '#')
}

/// How many characters at the front of `s` satisfy `p`.
pub open spec fn run_len(s: Seq<char>, p: spec_fn(char) -> bool) -> nat
    decreases s.len(),
{
    if s.len() > 0 && p(s[0]) {
        1 + run_len(s.drop_first(), p)
    } else {
        0
    }
}

/// How many characters at the back of `s` satisfy `p`.
pub open spec fn back_run_len(s: Seq<char>, p: spec_fn(char) -> bool) -> nat
    decreases s.len(),
{
    if s.len() > 0 && p(s.last()) {
        1 + back_run_len(s.drop_last(), p)
    } else {
        0
    }
}

pub open spec fn ws_pred() -> spec_fn(char) -> bool {
    |c: char| is_ws(c)
}

pub open spec fn word_pred(hash: bool) -> spec_fn(char) -> bool {
    |c: char| !is_sep(c, hash)
}

/// `s` without its leading and trailing white space.
pub open spec fn trim(s: Seq<char>) -> Seq<char> {
    let rest = s.skip(run_len(s, ws_pred()) as int);
    rest.take(rest.len() - back_run_len(rest, ws_pred()))
}

/// The maximal runs of non-separator characters of `s`, in order.
pub open spec fn words(s: Seq<char>, hash: bool) -> Seq<Seq<char>>
    decreases s.len(),
    via words_decreases
{
    if s.len() == 0 {
        seq![]
    } else if is_sep(s[0], hash) {
        words(s.drop_first(), hash)
    } else {
        let n = run_len(s, word_pred(hash)) as int;
        seq![s.take(n)] + words(s.skip(n), hash)
    }
}

#[via_fn]
proof fn words_decreases(s: Seq<char>, hash: bool) {
    if s.len() != 0 && !is_sep(s[0], hash) {
        lemma_run_len_bound(s, word_pred(hash));
    }
}

pub(crate) proof fn lemma_run_len_bound(s: Seq<char>, p: spec_fn(char) -> bool)
    ensures
        run_len(s, p) <= s.len(),
        s.len() > 0 && p(s[0]) ==> run_len(s, p) >= 1,
    decreases s.len(),
{
    if s.len() > 0 && p(s[0]) {
        lemma_run_len_bound(s.drop_first(), p);
    }
}

/// The first token of `s` with comment markers read as white space, or the
/// empty text.
pub open spec fn first_word(s: Seq<char>) -> Seq<char> {
    let w = words(s, true);
    if w.len() > 0 {
        w[0]
    } else {
        seq![]
    }
}

/// The text before the first comment marker.
pub open spec fn before_comment(s: Seq<char>) -> Seq<char> {
    s.take(run_len(s, not_hash()) as int)
}

pub open spec fn not_hash() -> spec_fn(char) -> bool {
    |c: char| c != '#'
}

pub open spec fn is_digit(c: char) -> bool {
    '0' <= c && c <= '9'
}

/// The number that a run of decimal digits writes.
pub open spec fn digits_value(s: Seq<char>) -> int
    decreases s.len(),
{
    if s.len() == 0 {
        0
    } else {
        digits_value(s.drop_last()) * 10 + (s.last() as u32 - '0' as u32)
    }
}

/// `s` without one leading sign character.
pub open spec fn unsigned_part(s: Seq<char>) -> Seq<char> {
    if s.len() > 0 && (s[0] == '-' || s[0] == '+') {
        s.drop_first()
    } else {
        s
    }
}

pub open spec fn is_negative(s: Seq<char>) -> bool {
    s.len() > 0 && s[0] == '-'
}

/// The value of a decimal integer literal with an optional sign, when there is one.
pub open spec fn signed_value(s: Seq<char>) -> int {
    let d = digits_value(unsigned_part(s));
    if is_negative(s) {
        -d
    } else {
        d
    }
}

/// Whether `s` is a decimal literal of an `i32`, as `str::parse::<i32>` accepts it.
pub open spec fn is_i32_literal(s: Seq<char>) -> bool {
    let u = unsigned_part(s);
    &&& u.len() > 0
    &&& forall|i: int| 0 <= i < u.len() ==> is_digit(#[trigger] u[i])
    &&& i32::MIN <= signed_value(s) <= i32::MAX
}

/// The integer a token stands for: its value, or 0 when it is no `i32` literal.
pub open spec fn int_of(s: Seq<char>) -> i32 {
    if is_i32_literal(s) {
        signed_value(s) as i32
    } else {
        0
    }
}

pub(crate) proof fn lemma_run_len(s: Seq<char>, p: spec_fn(char) -> bool, i: int, j: int)
    requires
        0 <= i <= j <= s.len(),
        forall|k: int| i <= k < j ==> p(s[k]),
        j == s.len() || !p(s[j]),
    ensures
        run_len(s.skip(i), p) == j - i,
    decreases j - i,
{
    if i < j {
        lemma_run_len(s, p, i + 1, j);
        assert(s.skip(i).drop_first() =~= s.skip(i + 1));
    }
}

proof fn lemma_back_run_len(s: Seq<char>, p: spec_fn(char) -> bool, j: int, m: int)
    requires
        0 <= j <= m <= s.len(),
        forall|k: int| j <= k < m ==> p(s[k]),
        j == 0 || !p(s[j - 1]),
    ensures
        back_run_len(s.take(m), p) == m - j,
    decreases m - j,
{
    if j < m {
        lemma_back_run_len(s, p, j, m - 1);
        assert(s.take(m).drop_last() =~= s.take(m - 1));
    }
}

pub open spec fn scan_pred(want_ws: bool, hash: bool) -> spec_fn(char) -> bool {
    if want_ws {
        ws_pred()
    } else {
        word_pred(hash)
    }
}

/// Index of the first character at or after `from` that fails `p`, or the end.
fn scan(s: &str, n: usize, from: usize, want_ws: bool, hash: bool) -> (r: usize)
    requires
        n == s@.len(),
        from <= n,
    ensures
        from <= r <= n,
        run_len(s@.skip(from as int), scan_pred(want_ws, hash)) == r - from,
        forall|k: int| from <= k < r ==> scan_pred(want_ws, hash)(s@[k]),
{
    let ghost p = scan_pred(want_ws, hash);
    let mut j = from;
    while j < n
        invariant
            from <= j <= n,
            n == s@.len(),
            forall|k: int| from <= k < j ==> p(s@[k]),
            p == scan_pred(want_ws, hash),
        ensures
            from <= j <= n,
            forall|k: int| from <= k < j ==> p(s@[k]),
            j == n || !p(s@[j as int]),
        decreases n - j,
    {
        let c = s.get_char(j);
        let hit = if want_ws { is_whitespace(c) } else { !is_separator(c, hash) };
        assert(hit == p(c));
        if !hit {
            break;
        }
        j = j + 1;
    }
    proof {
        lemma_run_len(s@, p, from as int, j as int);
    }
    j
}

/// Whether `c` is white space.
pub fn is_whitespace(c: char) -> (r: bool)
    ensures
        r == is_ws(c),
{
    ('\u{9}' <= c && c <= '\u{d}') || c == ' ' || c == '\u{85}' || c == '\u{a0}' || c
        == '\u{1680}' || ('\u{2000}' <= c && c <= '\u{200a}') || c == '\u{2028}' || c
        == '\u{2029}' || c == '\u{202f}' || c == '\u{205f}' || c == '\u{3000}'
}

/// Whether `c` separates tokens.
pub fn is_separator(c: char, hash: bool) -> (r: bool)
    ensures
        r == is_sep(c, hash),
{
    is_whitespace(c) || (hash && c == '#')
}

/// `line` without leading and trailing white space.
pub fn trim_line(line: &str) -> (r: String)
    ensures
        r@ == trim(line@),
{
    let n = line.unicode_len();
    let a = scan(line, n, 0, true, false);
    assert(line@.skip(0) =~= line@);
    let mut b = n;
    while b > a
        invariant
            a <= b <= n,
            n == line@.len(),
            forall|k: int| b <= k < n ==> is_ws(line@[k]),
        ensures
            a <= b <= n,
            forall|k: int| b <= k < n ==> is_ws(line@[k]),
            b == a || !is_ws(line@[b - 1]),
        decreases b,
    {
        let c = line.get_char(b - 1);
        if !is_whitespace(c) {
            break;
        }
        b = b - 1;
    }
    proof {
        let rest = line@.skip(a as int);
        assert forall|k: int| (b - a) <= k < rest.len() implies ws_pred()(rest[k]) by {
            assert(rest[k] == line@[k + a]);
        }
        if b > a {
            assert(rest[b - a - 1] == line@[b - 1]);
            assert(!ws_pred()(rest[b - a - 1]));
        }
        lemma_back_run_len(rest, ws_pred(), (b - a) as int, rest.len() as int);
        assert(rest.take(rest.len() as int) =~= rest);
        assert(rest.take(b - a) =~= line@.subrange(a as int, b as int));
    }
    String::from_str(line.substring_char(a, b))
}

/// Splits `s` into its tokens; with `hash`, comment markers separate too.
pub fn split_words(s: &str, hash: bool) -> (r: Vec<String>)
    ensures
        r@.map_values(|t: String| t@) == words(s@, hash),
{
    let n = s.unicode_len();
    let mut out: Vec<String> = Vec::new();
    let mut i: usize = 0;
    assert(s@.skip(0) =~= s@);
    while i < n
        invariant
            i <= n,
            n == s@.len(),
            out@.map_values(|t: String| t@) + words(s@.skip(i as int), hash) == words(s@, hash),
        decreases n - i,
    {
        let c = s.get_char(i);
        let ghost rest = s@.skip(i as int);
        if is_separator(c, hash) {
            assert(rest.drop_first() =~= s@.skip(i + 1));
            i = i + 1;
        } else {
            let j = scan(s, n, i, false, hash);
            let w = String::from_str(s.substring_char(i, j));
            let ghost before = out@.map_values(|t: String| t@);
            out.push(w);
            proof {
                assert(rest.take(j - i) =~= s@.subrange(i as int, j as int));
                assert(rest.skip(j - i) =~= s@.skip(j as int));
                assert(out@.map_values(|t: String| t@) =~= before.push(w@));
                assert(before.push(w@) + words(s@.skip(j as int), hash) =~= before + (seq![w@]
                    + words(s@.skip(j as int), hash)));
            }
            i = j;
        }
    }
    proof {
        assert(s@.skip(n as int) =~= Seq::<char>::empty());
        assert(out@.map_values(|t: String| t@) + seq![] =~= out@.map_values(|t: String| t@));
    }
    out
}

/// The tokens of a line, with comment markers read as white space.
pub fn split_values(line: &String) -> (r: Vec<String>)
    ensures
        r@.map_values(|t: String| t@) == words(line@, true),
{
    split_words(line.as_str(), true)
}

/// The first token of a line, with comment markers read as white space; empty
/// when there is none.
pub fn ignore_comment(line: &String) -> (r: String)
    ensures
        r@ == first_word(line@),
{
    let mut values = split_values(line);
    if values.len() > 0 {
        let ghost v = values@;
        let r = values.swap_remove(0);
        assert(v.map_values(|t: String| t@)[0] == r@);
        r
    } else {
        String::new()
    }
}

/// Everything before the first comment marker.
pub fn ignore_string_comment(line: &String) -> (r: String)
    ensures
        r@ == before_comment(line@),
{
    let s = line.as_str();
    let n = s.unicode_len();
    let mut j: usize = 0;
    while j < n
        invariant
            j <= n,
            n == s@.len(),
            forall|k: int| 0 <= k < j ==> s@[k] != '#',
        ensures
            j <= n,
            forall|k: int| 0 <= k < j ==> s@[k] != '#',
            j == n || s@[j as int] == '#',
        decreases n - j,
    {
        if s.get_char(j) == '#' {
            break;
        }
        j = j + 1;
    }
    proof {
        lemma_run_len(s@, not_hash(), 0, j as int);
        assert(s@.skip(0) =~= s@);
        assert(s@.take(j as int) =~= s@.subrange(0, j as int));
    }
    String::from_str(s.substring_char(0, j))
}

proof fn lemma_digits_nonneg(u: Seq<char>)
    requires
        forall|i: int| 0 <= i < u.len() ==> is_digit(#[trigger] u[i]),
    ensures
        digits_value(u) >= 0,
    decreases u.len(),
{
    if u.len() > 0 {
        lemma_digits_nonneg(u.drop_last());
    }
}

proof fn lemma_digits_grow(u: Seq<char>, k: int)
    requires
        0 <= k <= u.len(),
        forall|i: int| 0 <= i < u.len() ==> is_digit(#[trigger] u[i]),
    ensures
        digits_value(u) >= digits_value(u.take(k)),
    decreases u.len() - k,
{
    if k < u.len() {
        lemma_digits_grow(u, k + 1);
        let t = u.take(k + 1);
        assert(t.drop_last() =~= u.take(k));
        lemma_digits_nonneg(u.take(k));
    } else {
        assert(u.take(k) =~= u);
    }
}

/// The integer a token stands for; 0 when it is no `i32` literal.
pub fn get_int(value: &String) -> (r: i32)
    ensures
        r == int_of(value@),
{
    let s = value.as_str();
    let n = s.unicode_len();
    if n == 0 {
        return 0;
    }
    let c0 = s.get_char(0);
    let neg = c0 == '-';
    let start: usize = if c0 == '-' || c0 == '+' {
        1
    } else {
        0
    };
    let ghost u = unsigned_part(s@);
    assert(s@ == value@);
    assert(u =~= s@.subrange(start as int, n as int));
    if start == n {
        return 0;
    }
    let mut acc: i64 = 0;
    let mut i: usize = start;
    while i < n
        invariant
            start <= i <= n,
            n == s@.len(),
            u == s@.subrange(start as int, n as int),
            s@ == value@,
            u == unsigned_part(value@),
            neg == is_negative(value@),
            acc == digits_value(u.take(i - start)),
            0 <= acc <= 2147483648,
            forall|k: int| 0 <= k < i - start ==> is_digit(#[trigger] u[k]),
        decreases n - i,
    {
        let c = s.get_char(i);
        if !('0' <= c && c <= '9') {
            assert(u[i - start] == c);
            assert(!is_digit(u[i - start]));
            proof {
                if is_i32_literal(value@) {
                    assert(is_digit(unsigned_part(value@)[i - start]));
                }
            }
            return 0;
        }
        let d = (c as u32 - '0' as u32) as i64;
        let next = acc * 10 + d;
        proof {
            let t = u.take(i - start + 1);
            assert(t.drop_last() =~= u.take(i - start));
            assert(t.last() == c);
            assert(next == digits_value(t));
        }
        if next > 2147483648 {
            proof {
                if forall|k: int| 0 <= k < u.len() ==> is_digit(#[trigger] u[k]) {
                    lemma_digits_grow(u, i - start + 1);
                    assert(digits_value(u) > 2147483648);
                    assert(unsigned_part(value@) == u);
                    assert(digits_value(unsigned_part(value@)) > 2147483648);
                    if is_negative(value@) {
                        assert(signed_value(value@) == -digits_value(u));
                    } else {
                        assert(signed_value(value@) == digits_value(u));
                    }
                }
            }
            return 0;
        }
        acc = next;
        i = i + 1;
    }
    assert(u.take(n - start) =~= u);
    let v: i64 = if neg {
        -acc
    } else {
        acc
    };
    if v > 2147483647 {
        0
    } else {
        v as i32
    }
}

pub open spec fn digit_pred() -> spec_fn(char) -> bool {
    |c: char| is_digit(c)
}

/// `c` is the letter `lo` in either case (`up` being its capital).
pub open spec fn ci(c: char, lo: char, up: char) -> bool {
    c == lo || c == up
}

pub open spec fn is_inf_word(u: Seq<char>) -> bool {
    &&& u.len() == 3 || u.len() == 8
    &&& ci(u[0], 'i', 'I') && ci(u[1], 'n', 'N') && ci(u[2], 'f', 'F')
    &&& u.len() == 8 ==> ci(u[3], 'i', 'I') && ci(u[4], 'n', 'N') && ci(u[5], 'i', 'I') && ci(
        u[6],
        't',
        'T',
    ) && ci(u[7], 'y', 'Y')
}

pub open spec fn is_nan_word(u: Seq<char>) -> bool {
    u.len() == 3 && ci(u[0], 'n', 'N') && ci(u[1], 'a', 'A') && ci(u[2], 'n', 'N')
}

/// An exponent part: `e` or `E`, an optional sign, one digit or more.
pub open spec fn is_exponent(r: Seq<char>) -> bool {
    &&& r.len() > 0
    &&& ci(r[0], 'e', 'E')
    &&& unsigned_part(r.drop_first()).len() > 0
    &&& run_len(unsigned_part(r.drop_first()), digit_pred()) == unsigned_part(r.drop_first()).len()
}

/// A decimal number without sign: digits, an optional point with digits,
/// at least one digit in all, then an optional exponent.
pub open spec fn is_decimal_number(u: Seq<char>) -> bool {
    let a = run_len(u, digit_pred()) as int;
    let r1 = u.skip(a);
    if r1.len() > 0 && r1[0] == '.' {
        let f = r1.drop_first();
        let b = run_len(f, digit_pred()) as int;
        let r2 = f.skip(b);
        a + b > 0 && (r2.len() == 0 || is_exponent(r2))
    } else {
        a > 0 && (r1.len() == 0 || is_exponent(r1))
    }
}

/// Whether `str::parse::<f32>` accepts `s`: an optional sign, then `inf`,
/// `infinity` or `nan` in any case, or a decimal number.
pub open spec fn is_float_literal(s: Seq<char>) -> bool {
    let u = unsigned_part(s);
    is_inf_word(u) || is_nan_word(u) || is_decimal_number(u)
}

/// The scalar a token stands for: the token when it reads as a binary32,
/// not-a-number when it does not.
pub open spec fn real_of(s: Seq<char>) -> RealV {
    if is_float_literal(s) {
        RealV::Decimal(s)
    } else {
        RealV::NotANumber
    }
}

/// Index of the first non-digit at or after `from`, or the end.
fn scan_digits(s: &str, n: usize, from: usize) -> (r: usize)
    requires
        n == s@.len(),
        from <= n,
    ensures
        from <= r <= n,
        run_len(s@.skip(from as int), digit_pred()) == r - from,
{
    let mut j = from;
    while j < n
        invariant
            from <= j <= n,
            n == s@.len(),
            forall|k: int| from <= k < j ==> digit_pred()(s@[k]),
        ensures
            from <= j <= n,
            forall|k: int| from <= k < j ==> digit_pred()(s@[k]),
            j == n || !digit_pred()(s@[j as int]),
        decreases n - j,
    {
        let c = s.get_char(j);
        if !('0' <= c && c <= '9') {
            break;
        }
        j = j + 1;
    }
    proof {
        lemma_run_len(s@, digit_pred(), from as int, j as int);
    }
    j
}

fn is_ci(c: char, lo: char, up: char) -> (r: bool)
    ensures
        r == ci(c, lo, up),
{
    c == lo || c == up
}

/// Whether the characters of `s` from `i` form an exponent part.
fn exponent_from(s: &str, n: usize, i: usize) -> (r: bool)
    requires
        n == s@.len(),
        i <= n,
    ensures
        r == is_exponent(s@.skip(i as int)),
{
    let ghost r = s@.skip(i as int);
    if i == n {
        return false;
    }
    if !is_ci(s.get_char(i), 'e', 'E') {
        return false;
    }
    let mut k = i + 1;
    assert(r.drop_first() =~= s@.skip(k as int));
    if k < n && (s.get_char(k) == '-' || s.get_char(k) == '+') {
        k = k + 1;
        assert(unsigned_part(r.drop_first()) =~= s@.skip(k as int));
    } else {
        assert(unsigned_part(r.drop_first()) =~= s@.skip(k as int));
    }
    if k == n {
        return false;
    }
    let e = scan_digits(s, n, k);
    e == n
}

/// Whether the characters of `s` from `i` spell `inf`, `infinity` or `nan`.
fn special_word(s: &str, n: usize, i: usize) -> (r: bool)
    requires
        n == s@.len(),
        i <= n,
    ensures
        r == (is_inf_word(s@.skip(i as int)) || is_nan_word(s@.skip(i as int))),
{
    let m = n - i;
    if m == 3 {
        let c0 = s.get_char(i);
        let c1 = s.get_char(i + 1);
        let c2 = s.get_char(i + 2);
        (is_ci(c0, 'i', 'I') && is_ci(c1, 'n', 'N') && is_ci(c2, 'f', 'F')) || (is_ci(c0, 'n', 'N')
            && is_ci(c1, 'a', 'A') && is_ci(c2, 'n', 'N'))
    } else if m == 8 {
        is_ci(s.get_char(i), 'i', 'I') && is_ci(s.get_char(i + 1), 'n', 'N') && is_ci(
            s.get_char(i + 2),
            'f',
            'F',
        ) && is_ci(s.get_char(i + 3), 'i', 'I') && is_ci(s.get_char(i + 4), 'n', 'N') && is_ci(
            s.get_char(i + 5),
            'i',
            'I',
        ) && is_ci(s.get_char(i + 6), 't', 'T') && is_ci(s.get_char(i + 7), 'y', 'Y')
    } else {
        false
    }
}

/// Whether `s` reads as a binary32, as `str::parse::<f32>` has it.
pub fn is_float_token(s: &str) -> (r: bool)
    ensures
        r == is_float_literal(s@),
{
    let n = s.unicode_len();
    let mut i: usize = 0;
    if n > 0 && (s.get_char(0) == '-' || s.get_char(0) == '+') {
        i = 1;
    }
    let ghost u = unsigned_part(s@);
    assert(u =~= s@.skip(i as int));
    let word = special_word(s, n, i);
    assert(word == (is_inf_word(u) || is_nan_word(u)));
    if word {
        return true;
    }
    let a_end = scan_digits(s, n, i);
    let a = a_end - i;
    assert(u.skip(a as int) =~= s@.skip(a_end as int));
    if a_end < n && s.get_char(a_end) == '.' {
        let f_start = a_end + 1;
        assert(u.skip(a as int).drop_first() =~= s@.skip(f_start as int));
        let b_end = scan_digits(s, n, f_start);
        let b = b_end - f_start;
        assert(s@.skip(f_start as int).skip(b as int) =~= s@.skip(b_end as int));
        a + b > 0 && (b_end == n || exponent_from(s, n, b_end))
    } else {
        a > 0 && (a_end == n || exponent_from(s, n, a_end))
    }
}

/// The scalar a token stands for; not-a-number when it is no float literal.
pub fn get_float(value: &String) -> (r: Real)
    ensures
        r@ == real_of(value@),
{
    if is_float_token(value.as_str()) {
        Real::Decimal(value.clone())
    } else {
        Real::NotANumber
    }
}

} // verus!
