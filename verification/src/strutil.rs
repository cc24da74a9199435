//! Small verified string helpers: decimal rendering, string equality,
//! and the canonical re-rendering laws of the unit parser.

use vstd::prelude::*;

use crate::parse::{
    all_digits, byte_size_value, digit_val, digits_val, dur_unit_ms, duration_value_ms, is_digit,
    is_num_char, lemma_count_while_is, unit_mult, valid_byte_size, valid_duration,
};

verus! {

/// The character for one decimal digit.
pub open spec fn digit_char(d: int) -> char {
    if d == 0 {
        '0'
    } else if d == 1 {
        '1'
    } else if d == 2 {
        '2'
    } else if d == 3 {
        '3'
    } else if d == 4 {
        '4'
    } else if d == 5 {
        '5'
    } else if d == 6 {
        '6'
    } else if d == 7 {
        '7'
    } else if d == 8 {
        '8'
    } else {
        '9'
    }
}

/// The decimal rendering of a number, most significant digit first, no
/// leading zeros except for zero itself.
pub open spec fn dec_digits(n: nat) -> Seq<char>
    decreases n,
{
    if n < 10 {
        seq![digit_char(n as int)]
    } else {
        dec_digits(n / 10).push(digit_char((n % 10) as int))
    }
}

/// A decimal rendering is a nonempty digit string whose value is the
/// rendered number.
pub proof fn lemma_dec_digits(n: nat)
    ensures
        dec_digits(n).len() >= 1,
        all_digits(dec_digits(n)),
        digits_val(dec_digits(n)) == n,
    decreases n,
{
    if n < 10 {
        assert(dec_digits(n).drop_last() =~= Seq::<char>::empty());
        assert(digits_val(Seq::<char>::empty()) == 0);
        assert(digit_val(digit_char(n as int)) == n);
    } else {
        lemma_dec_digits(n / 10);
        assert(dec_digits(n).drop_last() =~= dec_digits(n / 10));
        assert(dec_digits(n).last() == digit_char((n % 10) as int));
        assert(digit_val(digit_char((n % 10) as int)) == n % 10);
    }
}

fn digit_str(d: u64) -> (r: &'static str)
    requires
        d <= 9,
    ensures
        r@ == seq![digit_char(d as int)],
{
    let r: &'static str = if d == 0 {
        "0"
    } else if d == 1 {
        "1"
    } else if d == 2 {
        "2"
    } else if d == 3 {
        "3"
    } else if d == 4 {
        "4"
    } else if d == 5 {
        "5"
    } else if d == 6 {
        "6"
    } else if d == 7 {
        "7"
    } else if d == 8 {
        "8"
    } else {
        "9"
    };
    proof {
        reveal_strlit("0");
        reveal_strlit("1");
        reveal_strlit("2");
        reveal_strlit("3");
        reveal_strlit("4");
        reveal_strlit("5");
        reveal_strlit("6");
        reveal_strlit("7");
        reveal_strlit("8");
        reveal_strlit("9");
        assert(r@ =~= seq![digit_char(d as int)]);
    }
    r
}

/// Render a number in decimal.
pub fn u64_to_dec(v: u64) -> (s: String)
    ensures
        s@ == dec_digits(v as nat),
    decreases v,
{
    if v < 10 {
        digit_str(v).to_owned()
    } else {
        let mut s = u64_to_dec(v / 10);
        s.append(digit_str(v % 10));
        proof {
            assert(s@ =~= dec_digits(v as nat));
        }
        s
    }
}

/// Character-exact string equality.
pub fn str_eq(a: &str, b: &str) -> (r: bool)
    ensures
        r == (a@ == b@),
{
    let na = a.unicode_len();
    let nb = b.unicode_len();
    if na != nb {
        return false;
    }
    let mut i: usize = 0;
    while i < na
        invariant
            0 <= i <= na,
            na == a@.len(),
            na == b@.len(),
            forall|j: int| 0 <= j < i ==> a@[j] == b@[j],
        decreases na - i,
    {
        if a.get_char(i) != b.get_char(i) {
            return false;
        }
        i += 1;
    }
    proof {
        assert(a@ =~= b@);
    }
    true
}

/// ASCII lowercase of one character; anything but `A` through `Z` is
/// unchanged.
pub open spec fn lower_char(c: char) -> char {
    if 'A' <= c && c <= 'Z' {
        (((c as u8) + 32) as u8) as char
    } else {
        c
    }
}

/// ASCII lowercase of a character sequence.
pub open spec fn lower_seq(s: Seq<char>) -> Seq<char> {
    s.map_values(|c: char| lower_char(c))
}

/// The characters of each string in a list.
pub open spec fn str_views(l: Seq<String>) -> Seq<Seq<char>> {
    l.map_values(|s: String| s@)
}

/// Case-insensitive match of `s` against an already-lowercase keyword.
pub fn str_ci_is(s: &str, kw: &str) -> (r: bool)
    ensures
        r == (lower_seq(s@) == kw@),
{
    let n = s.unicode_len();
    if n != kw.unicode_len() {
        proof {
            assert(lower_seq(s@).len() == s@.len());
        }
        return false;
    }
    let mut i: usize = 0;
    while i < n
        invariant
            0 <= i <= n,
            n == s@.len(),
            n == kw@.len(),
            forall|j: int| 0 <= j < i ==> lower_char(s@[j]) == kw@[j],
        decreases n - i,
    {
        let c = s.get_char(i);
        let lc = if 'A' <= c && c <= 'Z' {
            ((c as u8) + 32) as char
        } else {
            c
        };
        if lc != kw.get_char(i) {
            proof {
                assert(lower_seq(s@)[i as int] == lower_char(s@[i as int]));
            }
            return false;
        }
        i += 1;
    }
    proof {
        assert(lower_seq(s@) =~= kw@);
    }
    true
}

/// The strings of a list joined with a separator between neighbours.
pub open spec fn join_spec(l: Seq<Seq<char>>, sep: Seq<char>) -> Seq<char>
    decreases l.len(),
{
    if l.len() == 0 {
        Seq::empty()
    } else if l.len() == 1 {
        l[0]
    } else {
        join_spec(l.drop_last(), sep) + sep + l.last()
    }
}

/// Join a list of strings with a separator.
pub fn join_strings(v: &Vec<String>, sep: &str) -> (r: String)
    ensures
        r@ == join_spec(str_views(v@), sep@),
{
    let mut r = String::new();
    let mut i: usize = 0;
    while i < v.len()
        invariant
            0 <= i <= v@.len(),
            r@ == join_spec(str_views(v@).take(i as int), sep@),
        decreases v@.len() - i,
    {
        if i > 0 {
            r.append(sep);
        }
        r.append(v[i].as_str());
        proof {
            let views = str_views(v@);
            assert(views[i as int] == v@[i as int]@);
            assert(views.take(i + 1).drop_last() =~= views.take(i as int));
            assert(views.take(i + 1).last() == views[i as int]);
            if i == 0 {
                assert(join_spec(views.take(1), sep@) == views[0]);
                assert(r@ =~= views[0]);
            }
        }
        i += 1;
    }
    proof {
        assert(str_views(v@).take(v@.len() as int) =~= str_views(v@));
    }
    r
}

/// Copy a list of strings, preserving each string's characters.
pub fn clone_str_list(v: &Vec<String>) -> (r: Vec<String>)
    ensures
        str_views(r@) == str_views(v@),
        r@.len() == v@.len(),
{
    let mut r: Vec<String> = Vec::new();
    let mut i: usize = 0;
    while i < v.len()
        invariant
            0 <= i <= v@.len(),
            r@.len() == i,
            forall|j: int| 0 <= j < i ==> r@[j]@ == #[trigger] v@[j]@,
        decreases v@.len() - i,
    {
        r.push(v[i].clone());
        i += 1;
    }
    proof {
        assert(str_views(r@) =~~= str_views(v@));
    }
    r
}

/// `sub` occurs contiguously somewhere in `s`.
pub open spec fn has_sub(s: Seq<char>, sub: Seq<char>) -> bool {
    exists|i: int| 0 <= i <= s.len() - sub.len() && #[trigger] s.subrange(i, i + sub.len()) == sub
}

fn match_at(s: &str, sub: &str, i: usize, n: usize, m: usize) -> (r: bool)
    requires
        n == s@.len(),
        m == sub@.len(),
        i + m <= n,
    ensures
        r == (s@.subrange(i as int, i + m) == sub@),
{
    let mut j: usize = 0;
    while j < m
        invariant
            0 <= j <= m,
            i + m <= n,
            n == s@.len(),
            m == sub@.len(),
            forall|l: int| 0 <= l < j ==> s@[i + l] == sub@[l],
        decreases m - j,
    {
        if s.get_char(i + j) != sub.get_char(j) {
            proof {
                assert(s@.subrange(i as int, i + m)[j as int] == s@[i + j]);
            }
            return false;
        }
        j += 1;
    }
    proof {
        assert(s@.subrange(i as int, i + m) =~= sub@);
    }
    true
}

/// Whether `sub` occurs contiguously in `s`.
pub fn contains_sub(s: &str, sub: &str) -> (r: bool)
    ensures
        r == has_sub(s@, sub@),
{
    let n = s.unicode_len();
    let m = sub.unicode_len();
    if m > n {
        return false;
    }
    if m == 0 {
        proof {
            assert(s@.subrange(0, 0 + sub@.len() as int) =~= sub@);
            assert(has_sub(s@, sub@));
        }
        return true;
    }
    let mut i: usize = 0;
    while i <= n - m
        invariant
            1 <= m <= n,
            n == s@.len(),
            m == sub@.len(),
            0 <= i <= n - m + 1,
            forall|k: int| 0 <= k < i ==> #[trigger] s@.subrange(k, k + m) != sub@,
        decreases n - i,
    {
        if match_at(s, sub, i, n, m) {
            return true;
        }
        i += 1;
    }
    false
}

/// The characters of `true` or `false`.
pub open spec fn bool_seq(b: bool) -> Seq<char> {
    if b {
        "true"@
    } else {
        "false"@
    }
}

/// The words `true` and `false`.
pub fn bool_str(b: bool) -> (r: &'static str)
    ensures
        r@ == bool_seq(b),
{
    if b {
        "true"
    } else {
        "false"
    }
}

/// Re-parsing the canonical decimal re-rendering of a byte count yields
/// that byte count: `parse_byte_size` is idempotent across re-rendering.
pub proof fn lemma_byte_size_reparse(v: u64)
    ensures
        valid_byte_size(dec_digits(v as nat)),
        byte_size_value(dec_digits(v as nat)) == v,
{
    let s = dec_digits(v as nat);
    lemma_dec_digits(v as nat);
    lemma_count_while_is(s, |c: char| is_num_char(c), s.len() as int);
    lemma_count_while_is(s, |c: char| is_digit(c), s.len() as int);
    assert(s.skip(s.len() as int) =~= Seq::<char>::empty());
    assert(s.take(s.len() as int) =~= s);
    assert(unit_mult(Seq::<char>::empty()) == Some(1int));
    assert(byte_size_value(s) == digits_val(s) * 1);
}

/// Re-parsing the canonical `ms` re-rendering of a duration yields that
/// duration: `parse_duration` is idempotent across re-rendering.
pub proof fn lemma_duration_reparse(v: u64)
    ensures
        valid_duration(dec_digits(v as nat) + seq!['m', 's']),
        duration_value_ms(dec_digits(v as nat) + seq!['m', 's']) == v,
{
    let ds = dec_digits(v as nat);
    let s = ds + seq!['m', 's'];
    let dl = ds.len() as int;
    lemma_dec_digits(v as nat);
    assert forall|j: int| 0 <= j < dl implies is_digit(#[trigger] s[j]) by {
        assert(s[j] == ds[j]);
    }
    assert(s[dl] == 'm');
    lemma_count_while_is(s, |c: char| is_digit(c), dl);
    let rest = s.skip(dl);
    assert(rest =~= seq!['m', 's']);
    lemma_count_while_is(rest, |c: char| !is_digit(c), 2);
    assert(rest.take(2) =~= rest);
    assert(dur_unit_ms(rest.take(2)) == Some(1int));
    assert(s.take(dl) =~= ds);
    assert(s.skip(dl + 2) =~= Seq::<char>::empty());
    assert(valid_duration(s));
    assert(duration_value_ms(Seq::<char>::empty()) == 0);
    assert(duration_value_ms(s) == digits_val(ds) * 1 + 0);
}

/// Render a byte count in its canonical form: plain decimal bytes.
pub fn render_byte_size(v: u64) -> (s: String)
    ensures
        s@ == dec_digits(v as nat),
        valid_byte_size(s@),
        byte_size_value(s@) == v,
{
    let s = u64_to_dec(v);
    proof {
        lemma_byte_size_reparse(v);
    }
    s
}

/// Render a duration in its canonical form: decimal milliseconds with
/// the `ms` unit.
pub fn render_duration_ms(v: u64) -> (s: String)
    ensures
        valid_duration(s@),
        duration_value_ms(s@) == v,
{
    let mut s = u64_to_dec(v);
    s.append("ms");
    proof {
        reveal_strlit("ms");
        lemma_duration_reparse(v);
        assert(s@ =~= dec_digits(v as nat) + seq!['m', 's']);
    }
    s
}

} // verus!
