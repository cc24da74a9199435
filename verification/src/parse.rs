//! The unit grammar: pure translation of human-readable byte-size and
//! duration strings into numeric values.
//!
//! Byte sizes are `<number><suffix>` where the number is an integer or a
//! decimal with at most [`MAX_FRAC_DIGITS`] fractional digits, and the
//! suffix is empty (raw bytes), `B`, a decimal unit (`KB`, `MB`, `GB`,
//! `TB`, `PB`, `EB`; powers of 1000) or a binary unit (`KiB`, `MiB`,
//! `GiB`, `TiB`, `PiB`, `EiB`; powers of 1024), case-insensitive.
//!
//! Durations are one or more components, each an integer immediately
//! followed by a unit among `ms`, `s`, `m`, `h`, `d` (case-insensitive);
//! components are summed. A bare number with no unit is rejected.

use vstd::prelude::*;

use crate::errors::ParseError;

verus! {

/// The fractional part of a byte-size number may hold at most this many
/// digits.
pub const MAX_FRAC_DIGITS: usize = 12;

pub open spec fn is_digit(c: char) -> bool {
    '0' <= c && c <= '9'
}

pub open spec fn digit_val(c: char) -> int {
    c as u32 - '0' as u32
}

pub open spec fn all_digits(s: Seq<char>) -> bool {
    forall|i: int| 0 <= i < s.len() ==> is_digit(#[trigger] s[i])
}

/// Numeric value of a digit string, most significant digit first.
pub open spec fn digits_val(s: Seq<char>) -> int
    decreases s.len(),
{
    if s.len() == 0 {
        0
    } else {
        digits_val(s.drop_last()) * 10 + digit_val(s.last())
    }
}

/// Length of the longest prefix of `s` whose characters all satisfy `p`.
pub open spec fn count_while(s: Seq<char>, p: spec_fn(char) -> bool) -> int
    decreases s.len(),
{
    if s.len() == 0 {
        0
    } else if p(s[0]) {
        1 + count_while(s.drop_first(), p)
    } else {
        0
    }
}

/// `b` to the power `e`.
pub open spec fn pow_of(b: int, e: nat) -> int
    decreases e,
{
    if e == 0 {
        1
    } else {
        b * pow_of(b, (e - 1) as nat)
    }
}

pub proof fn lemma_count_while_is(s: Seq<char>, p: spec_fn(char) -> bool, i: int)
    requires
        0 <= i <= s.len(),
        forall|j: int| 0 <= j < i ==> p(#[trigger] s[j]),
        i < s.len() ==> !p(s[i]),
    ensures
        count_while(s, p) == i,
    decreases s.len(),
{
    if s.len() > 0 {
        if i == 0 {
        } else {
            assert(p(s[0]));
            assert forall|j: int| 0 <= j < i - 1 implies p(#[trigger] s.drop_first()[j]) by {
                assert(s.drop_first()[j] == s[j + 1]);
            }
            if i - 1 < s.drop_first().len() {
                assert(s.drop_first()[i - 1] == s[i]);
            }
            lemma_count_while_is(s.drop_first(), p, i - 1);
        }
    }
}

/// Extending a digit string by one digit multiplies its value by ten and
/// adds that digit.
pub proof fn lemma_digits_val_snoc(s: Seq<char>, i: int)
    requires
        0 <= i < s.len(),
    ensures
        digits_val(s.take(i + 1)) == digits_val(s.take(i)) * 10 + digit_val(s[i]),
{
    assert(s.take(i + 1).drop_last() =~= s.take(i));
    assert(s.take(i + 1).last() == s[i]);
}

pub proof fn lemma_pow_pos(b: int, e: nat)
    requires
        b >= 1,
    ensures
        pow_of(b, e) >= 1,
    decreases e,
{
    if e > 0 {
        lemma_pow_pos(b, (e - 1) as nat);
        assert(b * pow_of(b, (e - 1) as nat) >= 1) by (nonlinear_arith)
            requires
                b >= 1,
                pow_of(b, (e - 1) as nat) >= 1,
        ;
    }
}

pub proof fn lemma_pow_le(b: int, e1: nat, e2: nat)
    requires
        b >= 1,
        e1 <= e2,
    ensures
        pow_of(b, e1) <= pow_of(b, e2),
    decreases e2,
{
    if e1 == e2 {
    } else {
        lemma_pow_le(b, e1, (e2 - 1) as nat);
        lemma_pow_pos(b, (e2 - 1) as nat);
        assert(b * pow_of(b, (e2 - 1) as nat) >= pow_of(b, (e2 - 1) as nat)) by (nonlinear_arith)
            requires
                b >= 1,
                pow_of(b, (e2 - 1) as nat) >= 1,
        ;
    }
}

/// A digit string's value is below ten to the power of its length.
pub proof fn lemma_digits_val_bound(s: Seq<char>)
    requires
        all_digits(s),
    ensures
        0 <= digits_val(s) < pow_of(10, s.len()),
    decreases s.len(),
{
    if s.len() > 0 {
        assert(all_digits(s.drop_last()));
        lemma_digits_val_bound(s.drop_last());
        assert(is_digit(s.last()));
    }
}

/// Concrete values of the powers the unit table needs.
pub proof fn lemma_pow_tables()
    ensures
        pow_of(1000, 1) == 1000,
        pow_of(1000, 2) == 1000_000,
        pow_of(1000, 3) == 1000_000_000,
        pow_of(1000, 4) == 1000_000_000_000,
        pow_of(1000, 5) == 1000_000_000_000_000,
        pow_of(1000, 6) == 1000_000_000_000_000_000,
        pow_of(1024, 1) == 1024,
        pow_of(1024, 2) == 1048576,
        pow_of(1024, 3) == 1073741824,
        pow_of(1024, 4) == 1099511627776,
        pow_of(1024, 5) == 1125899906842624,
        pow_of(1024, 6) == 1152921504606846976,
        pow_of(10, 12) == 1000_000_000_000,
{
    reveal_with_fuel(pow_of, 13);
}

pub open spec fn is_num_char(c: char) -> bool {
    is_digit(c) || c == '.'
}

/// Length of the leading `<number>` part: digits and dots.
pub open spec fn num_len(s: Seq<char>) -> int {
    count_while(s, |c: char| is_num_char(c))
}

/// Length of the leading run of digits: the integer part.
pub open spec fn int_len(s: Seq<char>) -> int {
    count_while(s, |c: char| is_digit(c))
}

/// Magnitude named by a unit's first letter: k is 1, m is 2, g is 3,
/// t is 4, p is 5, e is 6; anything else is 0.
pub open spec fn mag_idx(c: char) -> int {
    if c == 'k' || c == 'K' {
        1
    } else if c == 'm' || c == 'M' {
        2
    } else if c == 'g' || c == 'G' {
        3
    } else if c == 't' || c == 'T' {
        4
    } else if c == 'p' || c == 'P' {
        5
    } else if c == 'e' || c == 'E' {
        6
    } else {
        0
    }
}

pub open spec fn is_b_char(c: char) -> bool {
    c == 'b' || c == 'B'
}

pub open spec fn is_i_char(c: char) -> bool {
    c == 'i' || c == 'I'
}

/// Multiplier named by a byte-size suffix, case-insensitive: none for an
/// unknown suffix, 1 for an empty suffix or a bare `B`, powers of 1000
/// for the decimal units `KB` through `EB`, powers of 1024 for the binary
/// units `KiB` through `EiB`.
pub open spec fn unit_mult(u: Seq<char>) -> Option<int> {
    if u.len() == 0 {
        Some(1)
    } else if u.len() == 1 && is_b_char(u[0]) {
        Some(1)
    } else if u.len() == 2 && mag_idx(u[0]) >= 1 && is_b_char(u[1]) {
        Some(pow_of(1000, mag_idx(u[0]) as nat))
    } else if u.len() == 3 && mag_idx(u[0]) >= 1 && is_i_char(u[1]) && is_b_char(u[2]) {
        Some(pow_of(1024, mag_idx(u[0]) as nat))
    } else {
        None
    }
}

/// The leading number is well-formed: at least one integer digit, and if
/// a dot follows, one to [`MAX_FRAC_DIGITS`] fractional digits after it.
pub open spec fn valid_number(s: Seq<char>) -> bool {
    let nl = num_len(s);
    let il = int_len(s);
    il >= 1 && (il == nl || (il + 2 <= nl && nl - il - 1 <= MAX_FRAC_DIGITS && all_digits(
        s.subrange(il + 1, nl),
    )))
}

/// The byte-size grammar: a well-formed number immediately followed by a
/// recognized suffix.
pub open spec fn valid_byte_size(s: Seq<char>) -> bool {
    valid_number(s) && unit_mult(s.skip(num_len(s))) is Some
}

/// The byte count named by a byte-size string: the number times the
/// suffix's multiplier, fractional bytes truncated.
pub open spec fn byte_size_value(s: Seq<char>) -> int
    recommends
        valid_byte_size(s),
{
    let nl = num_len(s);
    let il = int_len(s);
    let mult = match unit_mult(s.skip(nl)) {
        Some(m) => m,
        None => 1,
    };
    let iv = digits_val(s.take(il));
    if il == nl {
        iv * mult
    } else {
        let fl = nl - il - 1;
        let fv = digits_val(s.subrange(il + 1, nl));
        iv * mult + (fv * mult) / pow_of(10, fl as nat)
    }
}

fn char_digit_val(c: char) -> (d: u8)
    requires
        is_digit(c),
    ensures
        d as int == digit_val(c),
        d <= 9,
{
    (c as u8) - 48
}

fn mag_of(c: char) -> (m: u8)
    ensures
        m as int == mag_idx(c),
{
    if c == 'k' || c == 'K' {
        1
    } else if c == 'm' || c == 'M' {
        2
    } else if c == 'g' || c == 'G' {
        3
    } else if c == 't' || c == 'T' {
        4
    } else if c == 'p' || c == 'P' {
        5
    } else if c == 'e' || c == 'E' {
        6
    } else {
        0
    }
}

fn pow1000(k: u8) -> (r: u64)
    requires
        1 <= k <= 6,
    ensures
        r as int == pow_of(1000, k as nat),
        r <= 0x1000_0000_0000_0000,
{
    proof {
        lemma_pow_tables();
    }
    if k == 1 {
        1000
    } else if k == 2 {
        1000_000
    } else if k == 3 {
        1000_000_000
    } else if k == 4 {
        1000_000_000_000
    } else if k == 5 {
        1000_000_000_000_000
    } else {
        1000_000_000_000_000_000
    }
}

fn pow1024(k: u8) -> (r: u64)
    requires
        1 <= k <= 6,
    ensures
        r as int == pow_of(1024, k as nat),
        r <= 0x1000_0000_0000_0000,
{
    proof {
        lemma_pow_tables();
    }
    if k == 1 {
        1024
    } else if k == 2 {
        1048576
    } else if k == 3 {
        1073741824
    } else if k == 4 {
        1099511627776
    } else if k == 5 {
        1125899906842624
    } else {
        1152921504606846976
    }
}

/// The one answer the byte-size grammar allows for a string: the exact
/// value when it parses and fits, `InvalidFormat` exactly when the
/// grammar rejects it, `Overflow` exactly when the value does not fit.
pub open spec fn byte_size_result(s: Seq<char>, r: Result<u64, ParseError>) -> bool {
    match r {
        Ok(v) => valid_byte_size(s) && v as int == byte_size_value(s) && byte_size_value(s)
            <= u64::MAX,
        Err(e) => match e {
            ParseError::InvalidFormat => !valid_byte_size(s),
            ParseError::Overflow => valid_byte_size(s) && byte_size_value(s) > u64::MAX,
        },
    }
}

/// The byte-size answer is unique: parsing is deterministic, a function
/// of the characters alone.
pub proof fn lemma_byte_size_result_unique(
    s: Seq<char>,
    r1: Result<u64, ParseError>,
    r2: Result<u64, ParseError>,
)
    requires
        byte_size_result(s, r1),
        byte_size_result(s, r2),
    ensures
        r1 == r2,
{
}

/// Parse a byte-size string such as `"10MB"` or `"1.5KiB"`.
///
/// Returns the exact byte count for every string the grammar accepts
/// whose value fits in `u64`; `InvalidFormat` exactly when the grammar
/// rejects the string, and `Overflow` exactly when the grammar accepts
/// it but its value does not fit.
pub fn parse_byte_size(s: &str) -> (r: Result<u64, ParseError>)
    ensures
        byte_size_result(s@, r),
{
    let n = s.unicode_len();
    // The number part: leading digits and dots.
    let mut nl: usize = 0;
    loop
        invariant
            0 <= nl <= n,
            n == s@.len(),
            forall|j: int| 0 <= j < nl ==> is_num_char(#[trigger] s@[j]),
        ensures
            0 <= nl <= n,
            forall|j: int| 0 <= j < nl ==> is_num_char(#[trigger] s@[j]),
            nl < n ==> !is_num_char(s@[nl as int]),
        decreases n - nl,
    {
        if nl >= n {
            break ;
        }
        let c = s.get_char(nl);
        if ('0' <= c && c <= '9') || c == '.' {
            nl += 1;
        } else {
            break ;
        }
    }
    proof {
        lemma_count_while_is(s@, |c: char| is_num_char(c), nl as int);
    }
    // The integer part: leading digits.
    let mut il: usize = 0;
    loop
        invariant
            0 <= il <= nl <= n,
            n == s@.len(),
            forall|j: int| 0 <= j < nl ==> is_num_char(#[trigger] s@[j]),
            forall|j: int| 0 <= j < il ==> is_digit(#[trigger] s@[j]),
            nl < n ==> !is_num_char(s@[nl as int]),
        ensures
            0 <= il <= nl,
            forall|j: int| 0 <= j < il ==> is_digit(#[trigger] s@[j]),
            il < n ==> !is_digit(s@[il as int]),
        decreases nl - il,
    {
        if il >= nl {
            break ;
        }
        let c = s.get_char(il);
        if '0' <= c && c <= '9' {
            il += 1;
        } else {
            break ;
        }
    }
    proof {
        lemma_count_while_is(s@, |c: char| is_digit(c), il as int);
    }
    if il == 0 {
        return Err(ParseError::InvalidFormat);
    }
    // The fractional part, when a dot follows the integer part.
    let mut fl: usize = 0;
    if il < nl {
        // The character at il is a number character but not a digit: the dot.
        let mut fe: usize = il + 1;
        loop
            invariant
                il + 1 <= fe <= n,
                fe <= nl,
                n == s@.len(),
                nl <= n,
                forall|j: int| 0 <= j < nl ==> is_num_char(#[trigger] s@[j]),
                forall|j: int| il + 1 <= j < fe ==> is_digit(#[trigger] s@[j]),
                nl < n ==> !is_num_char(s@[nl as int]),
            ensures
                il + 1 <= fe <= nl,
                forall|j: int| il + 1 <= j < fe ==> is_digit(#[trigger] s@[j]),
                fe < nl ==> !is_digit(s@[fe as int]),
            decreases n - fe,
        {
            if fe >= nl {
                break ;
            }
            let c = s.get_char(fe);
            if '0' <= c && c <= '9' {
                fe += 1;
            } else {
                break ;
            }
        }
        if fe < nl || nl - il - 1 > MAX_FRAC_DIGITS || nl == il + 1 {
            proof {
                if fe < nl {
                    assert(s@.subrange(il + 1, nl as int)[fe - il - 1] == s@[fe as int]);
                }
            }
            return Err(ParseError::InvalidFormat);
        }
        fl = nl - il - 1;
        proof {
            assert forall|j: int| 0 <= j < s@.subrange(il + 1, nl as int).len() implies is_digit(
                #[trigger] s@.subrange(il + 1, nl as int)[j],
            ) by {
                assert(s@.subrange(il + 1, nl as int)[j] == s@[il + 1 + j]);
            }
        }
    }
    let ghost fracs = if il < nl {
        s@.subrange(il + 1, nl as int)
    } else {
        Seq::<char>::empty()
    };
    // The suffix.
    let ul = n - nl;
    let mult: u64;
    if ul == 0 {
        proof {
            assert(s@.skip(nl as int) =~= Seq::<char>::empty());
        }
        mult = 1;
    } else if ul == 1 {
        let c = s.get_char(nl);
        proof {
            assert(s@.skip(nl as int)[0] == s@[nl as int]);
        }
        if c == 'b' || c == 'B' {
            mult = 1;
        } else {
            return Err(ParseError::InvalidFormat);
        }
    } else if ul == 2 {
        let c0 = s.get_char(nl);
        let c1 = s.get_char(nl + 1);
        proof {
            assert(s@.skip(nl as int)[0] == s@[nl as int]);
            assert(s@.skip(nl as int)[1] == s@[nl as int + 1]);
        }
        let m = mag_of(c0);
        if m >= 1 && (c1 == 'b' || c1 == 'B') {
            mult = pow1000(m);
        } else {
            return Err(ParseError::InvalidFormat);
        }
    } else if ul == 3 {
        let c0 = s.get_char(nl);
        let c1 = s.get_char(nl + 1);
        let c2 = s.get_char(nl + 2);
        proof {
            assert(s@.skip(nl as int)[0] == s@[nl as int]);
            assert(s@.skip(nl as int)[1] == s@[nl as int + 1]);
            assert(s@.skip(nl as int)[2] == s@[nl as int + 2]);
        }
        let m = mag_of(c0);
        if m >= 1 && (c1 == 'i' || c1 == 'I') && (c2 == 'b' || c2 == 'B') {
            mult = pow1024(m);
        } else {
            return Err(ParseError::InvalidFormat);
        }
    } else {
        return Err(ParseError::InvalidFormat);
    }
    assert(valid_byte_size(s@));
    // The integer part's value, capped one past u64::MAX: the true value
    // can only grow from here, so the cap alone decides overflow.
    let mut iv: u128 = 0;
    let mut j: usize = 0;
    while j < il
        invariant
            0 <= j <= il <= n,
            n == s@.len(),
            forall|k: int| 0 <= k < il ==> is_digit(#[trigger] s@[k]),
            digits_val(s@.take(j as int)) >= 0,
            digits_val(s@.take(j as int)) <= u64::MAX ==> iv == digits_val(s@.take(j as int)),
            digits_val(s@.take(j as int)) > u64::MAX ==> iv == 0x1_0000_0000_0000_0000u128,
            iv <= 0x1_0000_0000_0000_0000u128,
        decreases il - j,
    {
        let c = s.get_char(j);
        let d = char_digit_val(c);
        proof {
            lemma_digits_val_snoc(s@, j as int);
        }
        let t: u128 = iv * 10 + d as u128;
        if t >= 0x1_0000_0000_0000_0000u128 {
            iv = 0x1_0000_0000_0000_0000u128;
        } else {
            iv = t;
        }
        j += 1;
    }
    let ghost ivg = digits_val(s@.take(il as int));
    // The fractional part's value, exact: at most MAX_FRAC_DIGITS digits.
    let mut fv: u64 = 0;
    if fl > 0 {
        let mut k: usize = 0;
        proof {
            lemma_pow_tables();
        }
        while k < fl
            invariant
                0 <= k <= fl <= MAX_FRAC_DIGITS,
                n == s@.len(),
                nl <= n,
                il + 1 + fl == nl,
                fracs == s@.subrange(il + 1, nl as int),
                all_digits(fracs),
                fv as int == digits_val(fracs.take(k as int)),
                (fv as int) < pow_of(10, k as nat),
            decreases fl - k,
        {
            proof {
                lemma_pow_tables();
                assert(all_digits(fracs.take(k as int)));
                lemma_pow_le(10, k as nat, 12);
                assert(fracs.take(k + 1).drop_last() =~= fracs.take(k as int));
                assert(fracs[k as int] == s@[il + 1 + k]);
            }
            let c = s.get_char(il + 1 + k);
            let d = char_digit_val(c);
            fv = fv * 10 + d as u64;
            k += 1;
        }
        proof {
            assert(fracs.take(fl as int) =~= fracs);
            lemma_pow_le(10, fl as nat, 12);
        }
    }
    // The power of ten dividing the fractional contribution.
    let mut p10: u64 = 1;
    let mut k2: usize = 0;
    proof {
        lemma_pow_tables();
    }
    while k2 < fl
        invariant
            0 <= k2 <= fl <= MAX_FRAC_DIGITS,
            p10 as int == pow_of(10, k2 as nat),
        decreases fl - k2,
    {
        proof {
            lemma_pow_tables();
            lemma_pow_le(10, k2 as nat, 12);
        }
        p10 = p10 * 10;
        k2 += 1;
    }
    proof {
        lemma_pow_tables();
        if fl > 0 {
            lemma_digits_val_bound(fracs);
            lemma_pow_le(10, fl as nat, 12);
        }
        lemma_pow_pos(10, fl as nat);
    }
    // Combine. iv capped means the integer part alone exceeds u64::MAX.
    if iv >= 0x1_0000_0000_0000_0000u128 {
        proof {
            assert(ivg * mult >= ivg) by (nonlinear_arith)
                requires
                    mult >= 1,
                    ivg > u64::MAX,
            ;
            assert((fv as int * mult) / pow_of(10, fl as nat) >= 0) by (nonlinear_arith)
                requires
                    fv >= 0,
                    mult >= 1,
                    pow_of(10, fl as nat) >= 1,
            ;
        }
        return Err(ParseError::Overflow);
    }
    proof {
        assert(iv * (mult as u128) <= 0xffff_ffff_ffff_ffffu128 * 0x1000_0000_0000_0000u128)
            by (nonlinear_arith)
            requires
                iv <= 0xffff_ffff_ffff_ffffu128,
                mult <= 0x1000_0000_0000_0000u64,
        ;
        assert((fv as u128) * (mult as u128) <= 1000_000_000_000u128 * 0x1000_0000_0000_0000u128)
            by (nonlinear_arith)
            requires
                fv as u128 <= 1000_000_000_000u128,
                mult <= 0x1000_0000_0000_0000u64,
        ;
    }
    let frac_part: u128 = (fv as u128) * (mult as u128) / (p10 as u128);
    let v: u128 = iv * (mult as u128) + frac_part;
    proof {
        assert((fv as int) * (mult as int) / (p10 as int) <= (fv as int) * (mult as int))
            by (nonlinear_arith)
            requires
                fv >= 0,
                mult >= 1,
                p10 >= 1,
        ;
    }
    proof {
        let multg = match unit_mult(s@.skip(nl as int)) {
            Some(m) => m,
            None => 1int,
        };
        assert(multg == mult as int);
        assert(ivg == iv as int);
        assert(frac_part as int == ((fv as int) * (mult as int)) / (p10 as int));
        assert(v as int == (iv as int) * (mult as int) + frac_part as int);
        assert((iv as int) * (mult as int) == ivg * multg);
        assert(p10 as int == pow_of(10, fl as nat));
        if il < nl {
            assert(fl == nl - il - 1);
            assert(fv as int == digits_val(s@.subrange(il + 1, nl as int)));
            assert(byte_size_value(s@) == ivg * multg + (fv as int * multg) / pow_of(
                10,
                fl as nat,
            ));
            assert((fv as int) * (mult as int) == (fv as int) * multg);
        } else {
            assert(fl == 0 && fv == 0);
            assert(frac_part as int == (0int * (mult as int)) / 1int);
            assert(frac_part == 0);
            assert(byte_size_value(s@) == ivg * multg);
        }
        assert(v as int == byte_size_value(s@));
    }
    if v > 0xffff_ffff_ffff_ffffu128 {
        return Err(ParseError::Overflow);
    }
    Ok(v as u64)
}

/// Milliseconds named by a duration unit, case-insensitive: `ms`, `s`,
/// `m`, `h` or `d`; none for anything else.
pub open spec fn dur_unit_ms(u: Seq<char>) -> Option<int> {
    if u.len() == 1 {
        if u[0] == 's' || u[0] == 'S' {
            Some(1000)
        } else if u[0] == 'm' || u[0] == 'M' {
            Some(60000)
        } else if u[0] == 'h' || u[0] == 'H' {
            Some(3600000)
        } else if u[0] == 'd' || u[0] == 'D' {
            Some(86400000)
        } else {
            None
        }
    } else if u.len() == 2 && (u[0] == 'm' || u[0] == 'M') && (u[1] == 's' || u[1] == 'S') {
        Some(1)
    } else {
        None
    }
}

/// The duration grammar: one or more components, each a nonempty digit
/// run immediately followed by a recognized unit. A bare number is not a
/// duration.
pub open spec fn valid_duration(s: Seq<char>) -> bool
    decreases s.len(),
{
    if s.len() == 0 {
        false
    } else {
        let d = int_len(s);
        let rest = s.skip(d);
        let u = count_while(rest, |c: char| !is_digit(c));
        1 <= d && 1 <= u && d + u <= s.len() && dur_unit_ms(rest.take(u)) is Some && (d + u
            == s.len() || valid_duration(s.skip(d + u)))
    }
}

/// The milliseconds named by a duration string: the sum over its
/// components of digits times unit.
pub open spec fn duration_value_ms(s: Seq<char>) -> int
    decreases s.len(),
{
    if s.len() == 0 {
        0
    } else {
        let d = int_len(s);
        let rest = s.skip(d);
        let u = count_while(rest, |c: char| !is_digit(c));
        if 1 <= d && 1 <= u && d + u <= s.len() {
            let unit = match dur_unit_ms(rest.take(u)) {
                Some(m) => m,
                None => 0,
            };
            digits_val(s.take(d)) * unit + duration_value_ms(s.skip(d + u))
        } else {
            0
        }
    }
}

/// First index at or past `from` whose character is not a digit.
fn scan_digits(s: &str, from: usize, n: usize) -> (to: usize)
    requires
        from <= n,
        n == s@.len(),
    ensures
        from <= to <= n,
        forall|j: int| from <= j < to ==> is_digit(#[trigger] s@[j]),
        to < n ==> !is_digit(s@[to as int]),
        to - from == count_while(s@.skip(from as int), |c: char| is_digit(c)),
{
    let mut to: usize = from;
    loop
        invariant
            from <= to <= n,
            n == s@.len(),
            forall|j: int| from <= j < to ==> is_digit(#[trigger] s@[j]),
        ensures
            from <= to <= n,
            forall|j: int| from <= j < to ==> is_digit(#[trigger] s@[j]),
            to < n ==> !is_digit(s@[to as int]),
        decreases n - to,
    {
        if to >= n {
            break ;
        }
        let c = s.get_char(to);
        if '0' <= c && c <= '9' {
            to += 1;
        } else {
            break ;
        }
    }
    proof {
        let rest = s@.skip(from as int);
        assert forall|j: int| 0 <= j < to - from implies is_digit(#[trigger] rest[j]) by {
            assert(rest[j] == s@[from + j]);
        }
        if to < n {
            assert(rest[to - from] == s@[to as int]);
        }
        lemma_count_while_is(rest, |c: char| is_digit(c), to - from);
    }
    to
}

/// First index at or past `from` whose character is a digit.
fn scan_nondigits(s: &str, from: usize, n: usize) -> (to: usize)
    requires
        from <= n,
        n == s@.len(),
    ensures
        from <= to <= n,
        forall|j: int| from <= j < to ==> !is_digit(#[trigger] s@[j]),
        to < n ==> is_digit(s@[to as int]),
        to - from == count_while(s@.skip(from as int), |c: char| !is_digit(c)),
{
    let mut to: usize = from;
    loop
        invariant
            from <= to <= n,
            n == s@.len(),
            forall|j: int| from <= j < to ==> !is_digit(#[trigger] s@[j]),
        ensures
            from <= to <= n,
            forall|j: int| from <= j < to ==> !is_digit(#[trigger] s@[j]),
            to < n ==> is_digit(s@[to as int]),
        decreases n - to,
    {
        if to >= n {
            break ;
        }
        let c = s.get_char(to);
        if !('0' <= c && c <= '9') {
            to += 1;
        } else {
            break ;
        }
    }
    proof {
        let rest = s@.skip(from as int);
        assert forall|j: int| 0 <= j < to - from implies !is_digit(#[trigger] rest[j]) by {
            assert(rest[j] == s@[from + j]);
        }
        if to < n {
            assert(rest[to - from] == s@[to as int]);
        }
        lemma_count_while_is(rest, |c: char| !is_digit(c), to - from);
    }
    to
}

/// The one answer the duration grammar allows for a string.
pub open spec fn duration_result(s: Seq<char>, r: Result<u64, ParseError>) -> bool {
    match r {
        Ok(v) => valid_duration(s) && v as int == duration_value_ms(s) && duration_value_ms(s)
            <= u64::MAX,
        Err(e) => match e {
            ParseError::InvalidFormat => !valid_duration(s),
            ParseError::Overflow => valid_duration(s) && duration_value_ms(s) > u64::MAX,
        },
    }
}

/// The duration answer is unique: parsing is deterministic, a function
/// of the characters alone.
pub proof fn lemma_duration_result_unique(
    s: Seq<char>,
    r1: Result<u64, ParseError>,
    r2: Result<u64, ParseError>,
)
    requires
        duration_result(s, r1),
        duration_result(s, r2),
    ensures
        r1 == r2,
{
}

/// Parse a duration string such as `"30s"` or `"1h30m"` into
/// milliseconds.
///
/// Returns the exact sum of the components for every string the grammar
/// accepts whose value fits in `u64`; `InvalidFormat` exactly when the
/// grammar rejects the string, and `Overflow` exactly when the grammar
/// accepts it but the sum does not fit.
pub fn parse_duration(s: &str) -> (r: Result<u64, ParseError>)
    ensures
        duration_result(s@, r),
{
    let n = s.unicode_len();
    if n == 0 {
        return Err(ParseError::InvalidFormat);
    }
    let mut i: usize = 0;
    let mut acc: u128 = 0;
    let ghost mut pre: int = 0;
    proof {
        assert(s@.skip(0) =~= s@);
    }
    loop
        invariant
            0 <= i <= n,
            n == s@.len(),
            n > 0,
            i < n ==> (valid_duration(s@) <==> valid_duration(s@.skip(i as int))),
            i == n ==> valid_duration(s@),
            duration_value_ms(s@) == pre + duration_value_ms(s@.skip(i as int)),
            pre >= 0,
            pre <= u64::MAX ==> acc == pre,
            pre > u64::MAX ==> acc == 0x1_0000_0000_0000_0000u128,
            acc <= 0x1_0000_0000_0000_0000u128,
        ensures
            i == n,
            valid_duration(s@),
            duration_value_ms(s@) == pre,
            pre >= 0,
            pre <= u64::MAX ==> acc == pre,
            pre > u64::MAX ==> acc == 0x1_0000_0000_0000_0000u128,
        decreases n - i,
    {
        if i >= n {
            proof {
                assert(s@.skip(i as int) =~= Seq::<char>::empty());
            }
            break ;
        }
        let ghost rest0 = s@.skip(i as int);
        // The component's digits.
        let d = scan_digits(s, i, n);
        if d == i {
            return Err(ParseError::InvalidFormat);
        }
        // The component's unit: the following run of non-digits.
        let u = scan_nondigits(s, d, n);
        proof {
            assert(s@.skip(i as int).skip(d - i) =~= s@.skip(d as int));
            assert(count_while(rest0, |c: char| is_digit(c)) == d - i) by {
                assert forall|j: int| 0 <= j < d - i implies is_digit(#[trigger] rest0[j]) by {
                    assert(rest0[j] == s@[i + j]);
                }
                if d < n {
                    assert(rest0[d - i] == s@[d as int]);
                }
                lemma_count_while_is(rest0, |c: char| is_digit(c), d - i);
            }
            assert(count_while(rest0.skip(d - i), |c: char| !is_digit(c)) == u - d);
        }
        if u == d {
            return Err(ParseError::InvalidFormat);
        }
        // Match the unit.
        let ghost unit_seq = rest0.skip(d - i).take(u - d);
        proof {
            assert(unit_seq =~= s@.subrange(d as int, u as int));
            assert forall|j: int| 0 <= j < u - d implies unit_seq[j] == s@[d + j] by {
                assert(unit_seq[j] == s@.subrange(d as int, u as int)[j]);
            }
        }
        let unit_ms: u64;
        if u - d == 1 {
            let c = s.get_char(d);
            if c == 's' || c == 'S' {
                unit_ms = 1000;
            } else if c == 'm' || c == 'M' {
                unit_ms = 60000;
            } else if c == 'h' || c == 'H' {
                unit_ms = 3600000;
            } else if c == 'd' || c == 'D' {
                unit_ms = 86400000;
            } else {
                return Err(ParseError::InvalidFormat);
            }
        } else if u - d == 2 {
            let c0 = s.get_char(d);
            let c1 = s.get_char(d + 1);
            if (c0 == 'm' || c0 == 'M') && (c1 == 's' || c1 == 'S') {
                unit_ms = 1;
            } else {
                return Err(ParseError::InvalidFormat);
            }
        } else {
            return Err(ParseError::InvalidFormat);
        }
        proof {
            assert(dur_unit_ms(unit_seq) == Some(unit_ms as int));
        }
        // The component's digits value, capped one past u64::MAX.
        let ghost comp_digits = s@.subrange(i as int, d as int);
        let mut dv: u128 = 0;
        let mut j: usize = i;
        while j < d
            invariant
                i <= j <= d <= n,
                n == s@.len(),
                forall|k: int| i <= k < d ==> is_digit(#[trigger] s@[k]),
                comp_digits == s@.subrange(i as int, d as int),
                digits_val(s@.subrange(i as int, j as int)) >= 0,
                digits_val(s@.subrange(i as int, j as int)) <= u64::MAX ==> dv == digits_val(
                    s@.subrange(i as int, j as int),
                ),
                digits_val(s@.subrange(i as int, j as int)) > u64::MAX ==> dv
                    == 0x1_0000_0000_0000_0000u128,
                dv <= 0x1_0000_0000_0000_0000u128,
            decreases d - j,
        {
            let c = s.get_char(j);
            let dg = char_digit_val(c);
            proof {
                assert(s@.subrange(i as int, j + 1).drop_last() =~= s@.subrange(i as int, j as int));
                assert(s@.subrange(i as int, j + 1).last() == s@[j as int]);
            }
            let t: u128 = dv * 10 + dg as u128;
            if t >= 0x1_0000_0000_0000_0000u128 {
                dv = 0x1_0000_0000_0000_0000u128;
            } else {
                dv = t;
            }
            j += 1;
        }
        let ghost dvg = digits_val(comp_digits);
        let ghost compg = dvg * (unit_ms as int);
        proof {
            assert(dvg * (unit_ms as int) >= dvg) by (nonlinear_arith)
                requires
                    unit_ms >= 1,
                    dvg >= 0,
            ;
            assert(compg >= dvg);
            // Unfold the grammar at this component.
            assert(rest0.take(d - i) =~= comp_digits);
            assert(rest0.skip(u - i) =~= s@.skip(u as int));
            assert(valid_duration(rest0) <==> (u == n || valid_duration(s@.skip(u as int))));
            assert(duration_value_ms(rest0) == compg + duration_value_ms(s@.skip(u as int)));
            if u < n {
                assert(valid_duration(s@) <==> valid_duration(s@.skip(u as int)));
            } else {
                assert(valid_duration(s@));
            }
        }
        // Fold the component into the running total, capped.
        if dv >= 0x1_0000_0000_0000_0000u128 {
            proof {
                assert(compg > u64::MAX);
            }
            acc = 0x1_0000_0000_0000_0000u128;
        } else {
            proof {
                assert((dv as int) * (unit_ms as int) <= 0xffff_ffff_ffff_ffffu128 * 86400000)
                    by (nonlinear_arith)
                    requires
                        dv <= 0xffff_ffff_ffff_ffffu128,
                        unit_ms <= 86400000u64,
                ;
            }
            let comp: u128 = dv * (unit_ms as u128);
            let t: u128 = acc + comp;
            if t >= 0x1_0000_0000_0000_0000u128 {
                acc = 0x1_0000_0000_0000_0000u128;
            } else {
                acc = t;
            }
        }
        proof {
            pre = pre + compg;
        }
        i = u;
    }
    if acc > 0xffff_ffff_ffff_ffffu128 {
        return Err(ParseError::Overflow);
    }
    Ok(acc as u64)
}

/// A digit string followed by a recognized byte-size suffix is a valid
/// byte-size string whose value is digits times multiplier.
pub proof fn lemma_byte_size_of(ds: Seq<char>, us: Seq<char>, m: int)
    requires
        ds.len() >= 1,
        all_digits(ds),
        unit_mult(us) == Some(m),
    ensures
        valid_byte_size(ds + us),
        byte_size_value(ds + us) == digits_val(ds) * m,
{
    let s = ds + us;
    let dl = ds.len() as int;
    assert forall|j: int| 0 <= j < dl implies is_num_char(#[trigger] s[j]) && is_digit(s[j]) by {
        assert(s[j] == ds[j]);
    }
    if us.len() > 0 {
        assert(s[dl] == us[0]);
        assert(!is_num_char(us[0]));
    }
    lemma_count_while_is(s, |c: char| is_num_char(c), dl);
    lemma_count_while_is(s, |c: char| is_digit(c), dl);
    assert(s.skip(dl) =~= us);
    assert(s.take(dl) =~= ds);
}

/// A digit string followed by a recognized duration unit is a valid
/// duration whose value is digits times the unit's milliseconds.
pub proof fn lemma_duration_of(ds: Seq<char>, us: Seq<char>, m: int)
    requires
        ds.len() >= 1,
        all_digits(ds),
        dur_unit_ms(us) == Some(m),
    ensures
        valid_duration(ds + us),
        duration_value_ms(ds + us) == digits_val(ds) * m,
{
    let s = ds + us;
    let dl = ds.len() as int;
    assert forall|j: int| 0 <= j < dl implies is_digit(#[trigger] s[j]) by {
        assert(s[j] == ds[j]);
    }
    assert(s[dl] == us[0]);
    lemma_count_while_is(s, |c: char| is_digit(c), dl);
    let rest = s.skip(dl);
    assert(rest =~= us);
    assert forall|j: int| 0 <= j < us.len() implies !is_digit(#[trigger] rest[j]) by {
        assert(rest[j] == us[j]);
    }
    lemma_count_while_is(rest, |c: char| !is_digit(c), us.len() as int);
    assert(rest.take(us.len() as int) =~= us);
    assert(s.take(dl) =~= ds);
    assert(s.skip(dl + us.len()) =~= Seq::<char>::empty());
    assert(duration_value_ms(Seq::<char>::empty()) == 0);
    assert(duration_value_ms(s) == digits_val(ds) * m + 0);
}

/// Values of one-, two- and three-digit strings.
pub proof fn lemma_digits_val_small3(a: char, b: char, c: char)
    ensures
        digits_val(seq![a, b, c]) == (digit_val(a) * 10 + digit_val(b)) * 10 + digit_val(c),
{
    lemma_digits_val_small(a, b);
    assert(seq![a, b, c].drop_last() =~= seq![a, b]);
    assert(seq![a, b, c].last() == c);
    assert(digits_val(seq![a, b, c]) == digits_val(seq![a, b, c].drop_last()) * 10 + digit_val(
        seq![a, b, c].last(),
    ));
}

/// Values of one- and two-digit strings.
pub proof fn lemma_digits_val_small(a: char, b: char)
    ensures
        digits_val(seq![a]) == digit_val(a),
        digits_val(seq![a, b]) == digit_val(a) * 10 + digit_val(b),
{
    assert(digits_val(Seq::<char>::empty()) == 0);
    assert(seq![a].drop_last() =~= Seq::<char>::empty());
    assert(seq![a].last() == a);
    assert(digits_val(seq![a]) == digits_val(seq![a].drop_last()) * 10 + digit_val(seq![a].last()));
    assert(seq![a, b].drop_last() =~= seq![a]);
    assert(seq![a, b].last() == b);
    assert(digits_val(seq![a, b]) == digits_val(seq![a, b].drop_last()) * 10 + digit_val(
        seq![a, b].last(),
    ));
}

} // verus!
