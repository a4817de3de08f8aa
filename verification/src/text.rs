//! Character-level text utilities: case folding, substring search, decimal
//! parsing and rendering, and line splitting.  All searching and parsing in
//! the engine is done over sequences of characters.

use vstd::prelude::*;

verus! {

// ---------------------------------------------------------------------------
// Case folding
// ---------------------------------------------------------------------------

/// What `str::to_lowercase` returns for a given sequence of characters.
pub uninterp spec fn lower_of(s: Seq<char>) -> Seq<char>;

/// Relies on `str::to_lowercase`: the result is a function of the characters
/// alone, and an empty string stays empty.
#[verifier::external_body]
pub(crate) fn lower_chars(s: &str) -> (r: Vec<char>)
    ensures
        r@ == lower_of(s@),
        s@.len() == 0 ==> r@.len() == 0,
{
    s.to_lowercase().chars().collect()
}

/// Relies on `str::chars`: yields exactly the characters of the string.
#[verifier::external_body]
pub(crate) fn chars_of(s: &str) -> (r: Vec<char>)
    ensures
        r@ == s@,
{
    s.chars().collect()
}

/// Relies on `String`'s `FromIterator<char>` impl: collects exactly the
/// given characters into a string.
#[verifier::external_body]
pub(crate) fn string_from_chars(v: &Vec<char>) -> (r: String)
    ensures
        r@ == v@,
{
    v.iter().collect()
}

// ---------------------------------------------------------------------------
// Substring search
// ---------------------------------------------------------------------------

/// `p` occurs in `t` starting at index `i`.
pub open spec fn matches_at(t: Seq<char>, p: Seq<char>, i: int) -> bool {
    0 <= i && i + p.len() <= t.len() && t.subrange(i, i + p.len()) == p
}

/// `p` occurs somewhere in `t` as a contiguous run of characters.
pub open spec fn contains_seq(t: Seq<char>, p: Seq<char>) -> bool {
    exists|i: int| matches_at(t, p, i)
}

fn match_at_exec(t: &Vec<char>, p: &Vec<char>, i: usize) -> (r: bool)
    requires
        i + p@.len() <= t@.len(),
    ensures
        r == matches_at(t@, p@, i as int),
{
    let tlen = t.len();
    let mut j: usize = 0;
    while j < p.len()
        invariant
            tlen == t@.len(),
            i + p@.len() <= t@.len(),
            j <= p@.len(),
            forall|k: int| 0 <= k < j ==> t@[i + k] == p@[k],
        decreases p@.len() - j,
    {
        if t[i + j] != p[j] {
            proof {
                if matches_at(t@, p@, i as int) {
                    assert(t@.subrange(i as int, i + p@.len())[j as int] == p@[j as int]);
                }
            }
            return false;
        }
        j += 1;
    }
    proof {
        assert(t@.subrange(i as int, i + p@.len()) =~= p@);
    }
    true
}

/// Index of the first occurrence of `p` inside `t`, if any.
pub fn find_sub(t: &Vec<char>, p: &Vec<char>) -> (r: Option<usize>)
    ensures
        match r {
            Some(i) => matches_at(t@, p@, i as int) && forall|j: int|
                0 <= j < i ==> !matches_at(t@, p@, j),
            None => !contains_seq(t@, p@),
        },
{
    if p.len() > t.len() {
        return None;
    }
    if p.len() == 0 {
        proof {
            assert(t@.subrange(0, 0) =~= p@);
        }
        return Some(0);
    }
    let last: usize = t.len() - p.len();
    let mut i: usize = 0;
    while i <= last
        invariant
            1 <= p@.len() <= t@.len(),
            last == t@.len() - p@.len(),
            last < usize::MAX,
            i <= last + 1,
            forall|j: int| 0 <= j < i ==> !matches_at(t@, p@, j),
        decreases last + 1 - i,
    {
        if match_at_exec(t, p, i) {
            return Some(i);
        }
        i += 1;
    }
    None
}

/// Whether `p` occurs inside `t`.
pub fn contains_chars(t: &Vec<char>, p: &Vec<char>) -> (r: bool)
    ensures
        r == contains_seq(t@, p@),
{
    match find_sub(t, p) {
        Some(i) => {
            proof {
                assert(matches_at(t@, p@, i as int));
            }
            true
        },
        None => false,
    }
}

/// A sequence concatenation contains its middle part.
pub proof fn lemma_concat_contains(a: Seq<char>, b: Seq<char>, c: Seq<char>)
    ensures
        contains_seq(a + b + c, b),
{
    assert((a + b + c).subrange(a.len() as int, a.len() as int + b.len() as int) =~= b);
    assert(matches_at(a + b + c, b, a.len() as int));
}

/// Every character of `s` is an ASCII whitespace character.
pub open spec fn is_blank(s: Seq<char>) -> bool {
    forall|i: int|
        0 <= i < s.len() ==> (#[trigger] s[i] == ' ' || s[i] == '\n' || s[i] == '\t' || s[i]
            == '\r')
}

/// Whether `v` holds only ASCII whitespace.
pub fn chars_blank(v: &Vec<char>) -> (r: bool)
    ensures
        r == is_blank(v@),
{
    let mut i: usize = 0;
    while i < v.len()
        invariant
            i <= v@.len(),
            forall|j: int|
                0 <= j < i ==> (#[trigger] v@[j] == ' ' || v@[j] == '\n' || v@[j] == '\t' || v@[j]
                    == '\r'),
        decreases v@.len() - i,
    {
        let c = v[i];
        if !(c == ' ' || c == '\n' || c == '\t' || c == '\r') {
            return false;
        }
        i += 1;
    }
    true
}

// ---------------------------------------------------------------------------
// Searching for a single character
// ---------------------------------------------------------------------------

/// Index of the first occurrence of `c` in `v` at or after `from`, if any.
pub fn find_char(v: &Vec<char>, c: char, from: usize) -> (r: Option<usize>)
    requires
        from <= v@.len(),
    ensures
        match r {
            Some(i) => from <= i < v@.len() && v@[i as int] == c && forall|j: int|
                from <= j < i ==> v@[j] != c,
            None => forall|j: int| from <= j < v@.len() ==> v@[j] != c,
        },
{
    let mut i: usize = from;
    while i < v.len()
        invariant
            from <= i <= v@.len(),
            forall|j: int| from <= j < i ==> v@[j] != c,
        decreases v@.len() - i,
    {
        if v[i] == c {
            return Some(i);
        }
        i += 1;
    }
    None
}

/// Index of the last occurrence of `c` in `s`, or `-1` when `c` is absent.
pub open spec fn last_index_of(s: Seq<char>, c: char) -> int
    decreases s.len(),
{
    if s.len() == 0 {
        -1
    } else if s.last() == c {
        s.len() - 1
    } else {
        last_index_of(s.drop_last(), c)
    }
}

pub proof fn lemma_last_index_of(s: Seq<char>, c: char)
    ensures
        ({
            let i = last_index_of(s, c);
            &&& -1 <= i < s.len()
            &&& i < 0 ==> forall|j: int| 0 <= j < s.len() ==> s[j] != c
            &&& i >= 0 ==> s[i] == c && (forall|j: int| i < j < s.len() ==> s[j] != c)
        }),
    decreases s.len(),
{
    if s.len() > 0 && s.last() != c {
        lemma_last_index_of(s.drop_last(), c);
        let r = last_index_of(s.drop_last(), c);
        if r < 0 {
            assert forall|j: int| 0 <= j < s.len() implies s[j] != c by {
                if j < s.len() - 1 {
                    assert(s.drop_last()[j] != c);
                }
            }
        } else {
            assert(s[r] == s.drop_last()[r]);
            assert forall|j: int| r < j < s.len() implies s[j] != c by {
                if j < s.len() - 1 {
                    assert(s.drop_last()[j] != c);
                }
            }
        }
    }
}

/// Index of the last occurrence of `c` in `v`, if any.
pub fn find_last_char(v: &Vec<char>, c: char) -> (r: Option<usize>)
    ensures
        match r {
            Some(i) => i < v@.len() && last_index_of(v@, c) == i,
            None => last_index_of(v@, c) == -1,
        },
{
    let mut i: usize = v.len();
    while i > 0
        invariant
            i <= v@.len(),
            forall|j: int| i <= j < v@.len() ==> v@[j] != c,
        decreases i,
    {
        i = i - 1;
        if v[i] == c {
            proof {
                lemma_last_index_of(v@, c);
                let li = last_index_of(v@, c);
                if li > i {
                    assert(v@[li] != c);
                }
                if li < i {
                    assert(v@[i as int] != c);
                }
            }
            return Some(i);
        }
    }
    proof {
        lemma_last_index_of(v@, c);
        let li = last_index_of(v@, c);
        if li >= 0 {
            assert(v@[li] != c);
        }
    }
    None
}

/// Whether two character vectors hold the same characters.
pub fn vec_chars_eq(a: &Vec<char>, b: &Vec<char>) -> (r: bool)
    ensures
        r == (a@ == b@),
{
    if a.len() != b.len() {
        return false;
    }
    let mut i: usize = 0;
    while i < a.len()
        invariant
            a@.len() == b@.len(),
            i <= a@.len(),
            forall|j: int| 0 <= j < i ==> a@[j] == b@[j],
        decreases a@.len() - i,
    {
        if a[i] != b[i] {
            return false;
        }
        i += 1;
    }
    proof {
        assert(a@ =~= b@);
    }
    true
}

/// A fresh vector holding `v[a..b]`.
pub fn subrange_vec(v: &Vec<char>, a: usize, b: usize) -> (r: Vec<char>)
    requires
        a <= b,
        b <= v@.len(),
    ensures
        r@ == v@.subrange(a as int, b as int),
{
    let mut out: Vec<char> = Vec::new();
    let mut i: usize = a;
    while i < b
        invariant
            a <= i <= b,
            b <= v@.len(),
            out@ == v@.subrange(a as int, i as int),
        decreases b - i,
    {
        out.push(v[i]);
        proof {
            assert(out@ =~= v@.subrange(a as int, i + 1));
        }
        i += 1;
    }
    out
}

// ---------------------------------------------------------------------------
// Decimal parsing
// ---------------------------------------------------------------------------

/// Numeric value of a decimal digit character, `-1` for any other character.
pub open spec fn digit_val(c: char) -> int {
    if c == '0' { 0 }
    else if c == '1' { 1 }
    else if c == '2' { 2 }
    else if c == '3' { 3 }
    else if c == '4' { 4 }
    else if c == '5' { 5 }
    else if c == '6' { 6 }
    else if c == '7' { 7 }
    else if c == '8' { 8 }
    else if c == '9' { 9 }
    else { -1 }
}

/// `c` is one of the ten decimal digit characters.
pub open spec fn is_digit(c: char) -> bool {
    digit_val(c) >= 0
}

fn digit_val_exec(c: char) -> (d: Option<u32>)
    ensures
        match d {
            Some(n) => is_digit(c) && n == digit_val(c),
            None => !is_digit(c),
        },
{
    if c == '0' { Some(0) }
    else if c == '1' { Some(1) }
    else if c == '2' { Some(2) }
    else if c == '3' { Some(3) }
    else if c == '4' { Some(4) }
    else if c == '5' { Some(5) }
    else if c == '6' { Some(6) }
    else if c == '7' { Some(7) }
    else if c == '8' { Some(8) }
    else if c == '9' { Some(9) }
    else { None }
}

/// Every character of `s` is a decimal digit.
pub open spec fn all_digits(s: Seq<char>) -> bool {
    forall|i: int| 0 <= i < s.len() ==> is_digit(#[trigger] s[i])
}

/// The number denoted by a sequence of digit characters, most significant
/// first.
pub open spec fn dec_value(s: Seq<char>) -> int
    decreases s.len(),
{
    if s.len() == 0 {
        0
    } else {
        10 * dec_value(s.drop_last()) + digit_val(s.last())
    }
}

proof fn lemma_dec_value_nonneg(s: Seq<char>)
    requires
        all_digits(s),
    ensures
        dec_value(s) >= 0,
    decreases s.len(),
{
    if s.len() > 0 {
        assert(all_digits(s.drop_last()));
        lemma_dec_value_nonneg(s.drop_last());
    }
}

proof fn lemma_dec_value_ge_prefix(s: Seq<char>, i: int)
    requires
        all_digits(s),
        0 <= i <= s.len(),
    ensures
        dec_value(s) >= dec_value(s.take(i)),
    decreases s.len() - i,
{
    if i == s.len() {
        assert(s.take(i) =~= s);
    } else {
        lemma_dec_value_ge_prefix(s, i + 1);
        let t = s.take(i + 1);
        assert(t.drop_last() =~= s.take(i));
        assert(dec_value(t) == 10 * dec_value(s.take(i)) + digit_val(s[i]));
        assert(all_digits(s.take(i)));
        lemma_dec_value_nonneg(s.take(i));
    }
}

/// Parse an unsigned 32-bit number written as decimal digits.  Returns
/// `None` on an empty input, on any non-digit character, and on overflow.
pub fn parse_u32_chars(v: &Vec<char>) -> (r: Option<u32>)
    ensures
        match r {
            Some(n) => v@.len() > 0 && all_digits(v@) && n == dec_value(v@),
            None => v@.len() == 0 || !all_digits(v@) || dec_value(v@) > u32::MAX,
        },
{
    if v.len() == 0 {
        return None;
    }
    let mut acc: u32 = 0;
    let mut i: usize = 0;
    while i < v.len()
        invariant
            i <= v@.len(),
            all_digits(v@.take(i as int)),
            acc == dec_value(v@.take(i as int)),
        decreases v@.len() - i,
    {
        let c = v[i];
        let d: u32 = match digit_val_exec(c) {
            Some(n) => n,
            None => {
                return None;
            },
        };
        proof {
            let t = v@.take(i + 1);
            assert(t.drop_last() =~= v@.take(i as int));
            assert(t.last() == v@[i as int]);
            assert forall|k: int| 0 <= k < t.len() implies is_digit(t[k]) by {
                if k < i {
                    assert(is_digit(v@.take(i as int)[k]));
                }
            }
            assert(dec_value(t) == 10 * (acc as int) + d);
        }
        if acc > (u32::MAX - d) / 10 {
            proof {
                assert(10 * (acc as int) + d > u32::MAX) by (nonlinear_arith)
                    requires
                        acc as int > (u32::MAX as int - d) / 10,
                        0 <= d <= 9,
                ;
                if all_digits(v@) {
                    lemma_dec_value_ge_prefix(v@, i + 1);
                }
            }
            return None;
        }
        acc = acc * 10 + d;
        i += 1;
    }
    proof {
        assert(v@.take(v@.len() as int) =~= v@);
    }
    Some(acc)
}

// ---------------------------------------------------------------------------
// Decimal rendering
// ---------------------------------------------------------------------------

/// The digit character for a value in `0..=9`.
pub open spec fn digit_char(d: int) -> char {
    if d == 0 { '0' }
    else if d == 1 { '1' }
    else if d == 2 { '2' }
    else if d == 3 { '3' }
    else if d == 4 { '4' }
    else if d == 5 { '5' }
    else if d == 6 { '6' }
    else if d == 7 { '7' }
    else if d == 8 { '8' }
    else { '9' }
}

/// Decimal rendering of a non-negative number, most significant digit first.
pub open spec fn dec_str(n: int) -> Seq<char>
    decreases n,
{
    if n < 10 {
        seq![digit_char(n)]
    } else {
        dec_str(n / 10).push(digit_char(n % 10))
    }
}

fn digit_char_exec(d: u64) -> (c: char)
    requires
        d < 10,
    ensures
        c == digit_char(d as int),
{
    if d == 0 { '0' }
    else if d == 1 { '1' }
    else if d == 2 { '2' }
    else if d == 3 { '3' }
    else if d == 4 { '4' }
    else if d == 5 { '5' }
    else if d == 6 { '6' }
    else if d == 7 { '7' }
    else if d == 8 { '8' }
    else { '9' }
}

fn push_dec_u64(n: u64, out: &mut Vec<char>)
    ensures
        final(out)@ == old(out)@ + dec_str(n as int),
    decreases n,
{
    if n < 10 {
        out.push(digit_char_exec(n));
        proof {
            assert(out@ =~= old(out)@ + dec_str(n as int));
        }
    } else {
        push_dec_u64(n / 10, out);
        out.push(digit_char_exec(n % 10));
        proof {
            assert(out@ =~= old(out)@ + dec_str(n as int));
        }
    }
}

/// Render an unsigned 64-bit number in decimal.
pub fn u64_to_string(n: u64) -> (r: String)
    ensures
        r@ == dec_str(n as int),
{
    let mut v: Vec<char> = Vec::new();
    push_dec_u64(n, &mut v);
    string_from_chars(&v)
}

/// Render an unsigned 32-bit number in decimal.
pub fn u32_to_string(n: u32) -> (r: String)
    ensures
        r@ == dec_str(n as int),
{
    u64_to_string(n as u64)
}

// ---------------------------------------------------------------------------
// Line splitting and joining
// ---------------------------------------------------------------------------

/// Index of the first occurrence of `c` in `s`, or `-1` when `c` is absent.
pub open spec fn first_index_of(s: Seq<char>, c: char) -> int
    decreases s.len(),
{
    if s.len() == 0 {
        -1
    } else if s[0] == c {
        0
    } else {
        let r = first_index_of(s.drop_first(), c);
        if r < 0 {
            -1
        } else {
            r + 1
        }
    }
}

pub proof fn lemma_first_index_of(s: Seq<char>, c: char)
    ensures
        ({
            let i = first_index_of(s, c);
            &&& -1 <= i < s.len()
            &&& i < 0 ==> forall|j: int| 0 <= j < s.len() ==> s[j] != c
            &&& i >= 0 ==> s[i] == c && (forall|j: int| 0 <= j < i ==> s[j] != c)
        }),
    decreases s.len(),
{
    if s.len() > 0 && s[0] != c {
        lemma_first_index_of(s.drop_first(), c);
        let r = first_index_of(s.drop_first(), c);
        if r < 0 {
            assert forall|j: int| 0 <= j < s.len() implies s[j] != c by {
                if j > 0 {
                    assert(s.drop_first()[j - 1] != c);
                }
            }
        } else {
            assert(s.drop_first()[r] == s[r + 1]);
            assert forall|j: int| 0 <= j < r + 1 implies s[j] != c by {
                if j > 0 {
                    assert(s.drop_first()[j - 1] != c);
                }
            }
        }
    }
}

/// The lines of `s`, split on newline characters.  A trailing newline does
/// not produce a final empty line.
pub open spec fn lines_of(s: Seq<char>) -> Seq<Seq<char>>
    decreases s.len(),
{
    if s.len() == 0 {
        Seq::empty()
    } else {
        let i = first_index_of(s, '\n');
        if 0 <= i < s.len() {
            seq![s.take(i)] + lines_of(s.skip(i + 1))
        } else {
            seq![s]
        }
    }
}

/// Split `v` into its lines, as `lines_of` describes.
pub fn split_lines(v: &Vec<char>) -> (r: Vec<String>)
    ensures
        r@.len() == lines_of(v@).len(),
        forall|i: int| 0 <= i < r@.len() ==> (#[trigger] r@[i])@ == lines_of(v@)[i],
{
    let mut out: Vec<String> = Vec::new();
    let mut pos: usize = 0;
    proof {
        assert(v@.skip(0) =~= v@);
        assert(out@.map_values(|s: String| s@) =~= Seq::<Seq<char>>::empty());
    }
    while pos < v.len()
        invariant
            pos <= v@.len(),
            lines_of(v@) =~= out@.map_values(|s: String| s@) + lines_of(v@.skip(pos as int)),
        decreases v@.len() - pos,
    {
        let rest = Ghost(v@.skip(pos as int));
        proof {
            lemma_first_index_of(rest@, '\n');
        }
        match find_char(v, '\n', pos) {
            Some(i) => {
                proof {
                    let fi = first_index_of(rest@, '\n');
                    assert(rest@[i - pos] == v@[i as int]);
                    assert forall|k: int| 0 <= k < i - pos implies rest@[k] != '\n' by {
                        assert(rest@[k] == v@[pos + k]);
                    }
                    if fi < i - pos {
                        assert(rest@[fi] == '\n');
                    }
                    assert(fi == i - pos);
                    assert(rest@.take(fi) =~= v@.subrange(pos as int, i as int));
                    assert(rest@.skip(fi + 1) =~= v@.skip(i + 1));
                }
                let piece = subrange_vec(v, pos, i);
                let s = string_from_chars(&piece);
                proof {
                    assert(out@.push(s).map_values(|t: String| t@) =~= out@.map_values(
                        |t: String| t@).push(s@));
                    assert(lines_of(rest@) =~= seq![s@] + lines_of(v@.skip(i + 1)));
                }
                out.push(s);
                pos = i + 1;
                proof {
                    assert(lines_of(v@) =~= out@.map_values(|t: String| t@) + lines_of(
                        v@.skip(pos as int)));
                }
            },
            None => {
                proof {
                    let fi = first_index_of(rest@, '\n');
                    if fi >= 0 {
                        assert(rest@[fi] == v@[pos + fi]);
                    }
                    assert(lines_of(rest@) =~= seq![rest@]);
                }
                let piece = subrange_vec(v, pos, v.len());
                let s = string_from_chars(&piece);
                proof {
                    assert(s@ =~= rest@);
                    assert(out@.push(s).map_values(|t: String| t@) =~= out@.map_values(
                        |t: String| t@).push(s@));
                    assert(v@.skip(v@.len() as int) =~= Seq::<char>::empty());
                }
                out.push(s);
                pos = v.len();
            },
        }
    }
    proof {
        assert(v@.skip(pos as int) =~= Seq::<char>::empty());
        assert(lines_of(v@) =~= out@.map_values(|s: String| s@));
    }
    out
}

/// The rows joined with single newline separators, no trailing newline.
pub open spec fn join_lines(rows: Seq<Seq<char>>) -> Seq<char>
    decreases rows.len(),
{
    if rows.len() == 0 {
        Seq::empty()
    } else if rows.len() == 1 {
        rows[0]
    } else {
        rows[0] + seq!['\n'] + join_lines(rows.drop_first())
    }
}

pub proof fn lemma_join_lines_push(rows: Seq<Seq<char>>, x: Seq<char>)
    ensures
        join_lines(rows.push(x)) =~= if rows.len() == 0 {
            x
        } else {
            join_lines(rows) + seq!['\n'] + x
        },
    decreases rows.len(),
{
    if rows.len() == 0 {
        assert(rows.push(x) =~= seq![x]);
    } else {
        lemma_join_lines_push(rows.drop_first(), x);
        assert(rows.push(x).drop_first() =~= rows.drop_first().push(x));
        assert(rows.push(x)[0] == rows[0]);
        if rows.len() == 1 {
            assert(join_lines(rows.push(x)) =~= rows[0] + seq!['\n'] + x);
        } else {
            assert(rows[0] + seq!['\n'] + (join_lines(rows.drop_first()) + seq!['\n'] + x) =~= (
            rows[0] + seq!['\n'] + join_lines(rows.drop_first())) + seq!['\n'] + x);
        }
    }
}

/// The first `cap` lines of `content`, rejoined with newlines, and
/// whether the text held more than that.
pub fn take_lines(content: &str, cap: usize) -> (r: (String, bool))
    ensures
        ({
            let ls = lines_of(content@);
            &&& r.1 == (ls.len() > cap)
            &&& r.0@ == join_lines(
                if ls.len() > cap {
                    ls.subrange(0, cap as int)
                } else {
                    ls
                },
            )
        }),
{
    let v = chars_of(content);
    let mut lines = split_lines(&v);
    let truncated = lines.len() > cap;
    let ghost before = lines@;
    lines.truncate(cap);
    proof {
        let ls = lines_of(content@);
        if before.len() > cap {
            assert(lines@.map_values(|s: String| s@) =~= ls.subrange(0, cap as int));
        } else {
            assert(lines@.map_values(|s: String| s@) =~= ls);
        }
    }
    (join_strings(&lines), truncated)
}

/// Join strings with newline separators, as `join_lines` describes.
pub fn join_strings(rows: &Vec<String>) -> (r: String)
    ensures
        r@ == join_lines(rows@.map_values(|s: String| s@)),
{
    let mut out = String::new();
    let mut i: usize = 0;
    while i < rows.len()
        invariant
            i <= rows@.len(),
            out@ =~= join_lines(rows@.map_values(|s: String| s@).take(i as int)),
        decreases rows@.len() - i,
    {
        proof {
            let m = rows@.map_values(|s: String| s@);
            lemma_join_lines_push(m.take(i as int), rows@[i as int]@);
            assert(m.take(i + 1) =~= m.take(i as int).push(m[i as int]));
            reveal_strlit("\n");
            assert("\n"@ =~= seq!['\n']);
        }
        if i > 0 {
            out.append("\n");
        }
        out.append(rows[i].as_str());
        i += 1;
    }
    proof {
        let m = rows@.map_values(|s: String| s@);
        assert(m.take(m.len() as int) =~= m);
    }
    out
}

} // verus!
