//! The canonical text of an identifier — a UUID in 8-4-4-4-12 form — and
//! reading it back.

use vstd::prelude::*;
use vstd::utf8::{encode_utf8, is_ascii_chars, is_ascii_chars_encode_utf8};
use vstd::string::*;
use crate::text::{
    hex_digit_value, hex_digits_value, is_hex_char, is_hex_digit, is_white_space,
    lemma_hex_digit_value_bound, lemma_hex_digits_value_bound, pow16, trim_end, trim_start, trim_white_space, trimmed,
    u128_from_hex, unsigned_hex_value,
};

verus! {

/// The lower-case hexadecimal digit for `d`, `0 <= d < 16`.
pub open spec fn hex_char(d: int) -> char {
    seq!['0', '1', '2', '3', '4', '5', '6', '7', '8', '9', 'a', 'b', 'c', 'd', 'e', 'f'][d]
}

/// The `k`-th of the 32 hexadecimal digits of `v`, most significant first.
pub open spec fn nibble(v: u128, k: int) -> int {
    (v as int / pow16((31 - k) as nat) as int) % 16
}

/// `v` as 32 lower-case hexadecimal digits, zero-padded.
pub open spec fn hex32(v: u128) -> Seq<char> {
    Seq::new(32, |k: int| hex_char(nibble(v, k)))
}

/// Thirty-two digits grouped 8-4-4-4-12 with hyphens between the groups.
pub open spec fn hyphenated(h: Seq<char>) -> Seq<char> {
    h.subrange(0, 8) + seq!['-'] + h.subrange(8, 12) + seq!['-'] + h.subrange(12, 16) + seq!['-']
        + h.subrange(16, 20) + seq!['-'] + h.subrange(20, 32)
}

/// The canonical text of an identifier: its UUID form, 8-4-4-4-12, in
/// lower-case hexadecimal.
pub open spec fn canonical_uuid_text(v: u128) -> Seq<char> {
    hyphenated(hex32(v))
}

/// Whether position `i` of the 36-character form holds a hyphen.
pub open spec fn is_hyphen_position(i: int) -> bool {
    i == 8 || i == 13 || i == 18 || i == 23
}

/// Whether `t` is in the 8-4-4-4-12 form: 36 characters, hyphens at 8, 13, 18
/// and 23, and a hexadecimal digit, in either case, everywhere else.
pub open spec fn in_uuid_form(t: Seq<char>) -> bool {
    &&& t.len() == 36
    &&& forall|i: int|
        #![trigger t[i]]
        0 <= i < 36 ==> if is_hyphen_position(i) {
            t[i] == '-'
        } else {
            is_hex_digit(t[i])
        }
}

/// The 32 digits of a text in the 8-4-4-4-12 form, its hyphens left out.
pub open spec fn uuid_digits(t: Seq<char>) -> Seq<char> {
    t.subrange(0, 8) + t.subrange(9, 13) + t.subrange(14, 18) + t.subrange(19, 23) + t.subrange(
        24,
        36,
    )
}

/// Whether the UTF-8 bytes `b` have the 8-4-4-4-12 outline: 36 bytes, with
/// hyphens at byte offsets 8, 13, 18 and 23.
pub open spec fn uuid_shaped(b: Seq<u8>) -> bool {
    &&& b.len() == 36
    &&& b[8] == 45
    &&& b[13] == 45
    &&& b[18] == 45
    &&& b[23] == 45
}

/// What reading `text` as an identifier gives: the value, or the message
/// saying why the text is refused.
///
/// The text is trimmed of surrounding white space first. Only the
/// hyphenated form is accepted: a text without the 8-4-4-4-12 outline is
/// refused as not a UUID, and one with the outline but anything other than a
/// hexadecimal digit between the hyphens is refused as not hexadecimal. So a
/// bare 32-digit string, or a sign or a hyphen where a digit belongs, is never
/// a second spelling of an identifier.
pub open spec fn uuid_text_value(text: Seq<char>) -> Result<u128, Seq<char>> {
    let t = trimmed(text);
    if !uuid_shaped(encode_utf8(t)) {
        Err("'"@ + t + "' is not a UUID in 8-4-4-4-12 form"@)
    } else if in_uuid_form(t) {
        Ok(hex_digits_value(uuid_digits(t)) as u128)
    } else {
        Err("'"@ + t + "' is not hexadecimal"@)
    }
}

/// The message refusing `t` as not hexadecimal.
fn not_hexadecimal(t: &str) -> (r: String)
    ensures
        r@ == "'"@ + t@ + "' is not hexadecimal"@,
{
    let mut message = String::from_str("'");
    message.append(t);
    message.append("' is not hexadecimal");
    message
}

/// The 32 digits of a text in the 8-4-4-4-12 form spell a number that fits a
/// `u128`, and reading them as hexadecimal gives it.
proof fn lemma_uuid_digits_read(t: Seq<char>)
    requires
        in_uuid_form(t),
    ensures
        uuid_digits(t).len() == 32,
        hex_digits_value(uuid_digits(t)) <= u128::MAX,
        unsigned_hex_value(uuid_digits(t)) == Some(hex_digits_value(uuid_digits(t)) as u128),
{
    let d = uuid_digits(t);
    assert forall|k: int| 0 <= k < 32 implies is_hex_digit(#[trigger] d[k]) by {
        if k < 8 {
            assert(d[k] == t[k]);
        } else if k < 12 {
            assert(d[k] == t[k + 1]);
        } else if k < 16 {
            assert(d[k] == t[k + 2]);
        } else if k < 20 {
            assert(d[k] == t[k + 3]);
        } else {
            assert(d[k] == t[k + 4]);
        }
    }
    lemma_pow16_32();
    lemma_hex_digits_value_bound(d, pow16(32));
    assert(d[0] != '+');
}

/// A text in the 8-4-4-4-12 form is ASCII, so its bytes have the outline.
proof fn lemma_uuid_form_is_shaped(t: Seq<char>)
    requires
        in_uuid_form(t),
    ensures
        uuid_shaped(encode_utf8(t)),
{
    assert forall|i: int| 0 <= i < t.len() implies '\0' <= #[trigger] t[i] <= '\u{7f}' by {
        if is_hyphen_position(i) {
            assert(t[i] == '-');
        } else {
            assert(is_hex_digit(t[i]));
        }
    }
    assert(is_ascii_chars(t));
    is_ascii_chars_encode_utf8(t);
    assert(t[8] == '-' && t[13] == '-' && t[18] == '-' && t[23] == '-');
}

/// Read canonical UUID form back to the value behind it.
///
/// Accepts the hyphenated form only, with surrounding white space ignored.
pub fn parse_uuid(text: &str) -> (r: Result<u128, String>)
    ensures
        match r {
            Ok(v) => uuid_text_value(text@) == Ok::<u128, Seq<char>>(v),
            Err(m) => uuid_text_value(text@) == Err::<u128, Seq<char>>(m@),
        },
{
    let t = trim_white_space(text);
    let bytes = t.as_bytes();
    let shaped = t.len() == 36 && bytes[8] == 45u8 && bytes[13] == 45u8 && bytes[18] == 45u8
        && bytes[23] == 45u8;
    if !shaped {
        let mut message = String::from_str("'");
        message.append(t);
        message.append("' is not a UUID in 8-4-4-4-12 form");
        return Err(message);
    }
    if t.unicode_len() != 36 {
        return Err(not_hexadecimal(t));
    }
    let mut i: usize = 0;
    while i < 36
        invariant
            t@.len() == 36,
            t@ == trimmed(text@),
            uuid_shaped(encode_utf8(t@)),
            0 <= i <= 36,
            forall|j: int|
                #![trigger t@[j]]
                0 <= j < i ==> if is_hyphen_position(j) {
                    t@[j] == '-'
                } else {
                    is_hex_digit(t@[j])
                },
        decreases 36 - i,
    {
        let c = t.get_char(i);
        let in_place = if i == 8 || i == 13 || i == 18 || i == 23 {
            c == '-'
        } else {
            is_hex_char(c)
        };
        if !in_place {
            assert(c == t@[i as int]);
            assert(!in_uuid_form(t@));
            return Err(not_hexadecimal(t));
        }
        i = i + 1;
    }
    assert(in_uuid_form(t@));
    let mut hex = String::from_str(t.substring_char(0, 8));
    hex.append(t.substring_char(9, 13));
    hex.append(t.substring_char(14, 18));
    hex.append(t.substring_char(19, 23));
    hex.append(t.substring_char(24, 36));
    assert(hex@ == uuid_digits(t@));
    proof {
        lemma_uuid_digits_read(t@);
    }
    match u128_from_hex(hex.as_str()) {
        Some(v) => Ok(v),
        None => Err(not_hexadecimal(t)),
    }
}

proof fn lemma_hex_char(d: int)
    requires
        0 <= d < 16,
    ensures
        is_hex_digit(hex_char(d)),
        hex_digit_value(hex_char(d)) == d,
        !is_white_space(hex_char(d)),
        hex_char(d) != '-',
        hex_char(d) != '+',
        '\0' <= hex_char(d) <= '\u{7f}',
{
    let s = seq!['0', '1', '2', '3', '4', '5', '6', '7', '8', '9', 'a', 'b', 'c', 'd', 'e', 'f'];
    assert(s[0] == '0' && s[1] == '1' && s[2] == '2' && s[3] == '3' && s[4] == '4' && s[5] == '5'
        && s[6] == '6' && s[7] == '7' && s[8] == '8' && s[9] == '9' && s[10] == 'a' && s[11] == 'b'
        && s[12] == 'c' && s[13] == 'd' && s[14] == 'e' && s[15] == 'f');
}

proof fn lemma_pow16_32()
    ensures
        pow16(32) == 0x1_0000_0000_0000_0000_0000_0000_0000_0000,
{
    reveal_with_fuel(pow16, 33);
}

proof fn lemma_pow16_positive(n: nat)
    ensures
        pow16(n) > 0,
    decreases n,
{
    if n > 0 {
        lemma_pow16_positive((n - 1) as nat);
    }
}

/// The first `k` digits of `hex32(v)` spell `v / 16^(32 - k)`.
proof fn lemma_hex32_prefix_value(v: u128, k: int)
    requires
        0 <= k <= 32,
    ensures
        hex_digits_value(hex32(v).take(k)) == v as int / pow16((32 - k) as nat) as int,
    decreases k,
{
    if k == 0 {
        lemma_pow16_32();
        assert(hex32(v).take(0).len() == 0);
        assert(hex_digits_value(hex32(v).take(0)) == 0);
        let m: int = 0x1_0000_0000_0000_0000_0000_0000_0000_0000int;
        assert(v as int / m == 0) by (nonlinear_arith)
            requires
                0 <= v < m,
        ;
    } else {
        lemma_hex32_prefix_value(v, k - 1);
        let p = pow16((32 - k) as nat) as int;
        lemma_pow16_positive((32 - k) as nat);
        assert(pow16((32 - (k - 1)) as nat) == 16 * pow16((32 - k) as nat));
        let s = hex32(v).take(k);
        assert(s.drop_last() == hex32(v).take(k - 1));
        let x = v as int / p;
        assert((31 - (k - 1)) as nat == (32 - k) as nat);
        assert(nibble(v, k - 1) == x % 16);
        assert(s.last() == hex_char(x % 16));
        lemma_hex_char(x % 16);
        vstd::arithmetic::div_mod::lemma_div_denominator(v as int, p, 16);
        vstd::arithmetic::div_mod::lemma_fundamental_div_mod(x, 16);
        assert(p * 16 == 16 * p) by (nonlinear_arith);
        assert(hex_digits_value(s.drop_last()) == x / 16);
        assert(hex_digits_value(s) == hex_digits_value(s.drop_last()) * 16 + hex_digit_value(
            s.last(),
        ));
        assert(hex_digits_value(s) == x);
    }
}

/// The canonical text of any identifier is in the 8-4-4-4-12 form and reads
/// back as that identifier.
pub proof fn law_canonical_text_reads_back(v: u128)
    ensures
        canonical_uuid_text(v).len() == 36,
        in_uuid_form(canonical_uuid_text(v)),
        uuid_text_value(canonical_uuid_text(v)) == Ok::<u128, Seq<char>>(v),
{
    let h = hex32(v);
    let c = canonical_uuid_text(v);
    assert forall|k: int| 0 <= k < 32 implies is_hex_digit(#[trigger] h[k]) && !is_white_space(
        h[k],
    ) by {
        lemma_hex_char(nibble(v, k));
    }
    assert(c.len() == 36);
    assert forall|i: int| #![trigger c[i]] 0 <= i < 36 implies if is_hyphen_position(i) {
        c[i] == '-'
    } else {
        is_hex_digit(c[i])
    } by {
        if i < 8 {
            assert(c[i] == h[i]);
        } else if is_hyphen_position(i) {
        } else if i < 13 {
            assert(c[i] == h[i - 1]);
        } else if i < 18 {
            assert(c[i] == h[i - 2]);
        } else if i < 23 {
            assert(c[i] == h[i - 3]);
        } else {
            assert(c[i] == h[i - 4]);
        }
    }
    assert(in_uuid_form(c));
    // Trimming leaves it alone.
    assert(c[0] == h[0]);
    assert(c[35] == h[31]);
    assert(trim_start(c) == c);
    assert(trim_end(c) == c);
    assert(trimmed(c) == c);
    lemma_uuid_form_is_shaped(c);
    // Its digits spell `v`.
    assert(uuid_digits(c) =~= h);
    lemma_hex32_prefix_value(v, 32);
    assert(h.take(32) == h);
    assert(pow16(0) == 1);
    assert(hex_digits_value(h.take(32)) == v as int / 1);
    assert(v as int / 1 == v);
    assert(hex_digits_value(h) == v);
}

/// Only the hyphenated form reads: a text gives an identifier exactly when,
/// trimmed, it is 36 characters with hyphens at 8, 13, 18 and 23 and a
/// hexadecimal digit everywhere else, and the identifier is the one those 32
/// digits spell.
pub proof fn law_only_the_uuid_form_reads(text: Seq<char>)
    ensures
        (uuid_text_value(text) is Ok) == in_uuid_form(trimmed(text)),
        in_uuid_form(trimmed(text)) ==> uuid_text_value(text) == Ok::<u128, Seq<char>>(
            hex_digits_value(uuid_digits(trimmed(text))) as u128,
        ),
{
    if in_uuid_form(trimmed(text)) {
        lemma_uuid_form_is_shaped(trimmed(text));
    }
}

proof fn lemma_digit_literal()
    ensures
        "0123456789abcdef"@.len() == 16,
        forall|d: int| 0 <= d < 16 ==> "0123456789abcdef"@[d] == #[trigger] hex_char(d),
{
    reveal_strlit("0123456789abcdef");
    let s = seq!['0', '1', '2', '3', '4', '5', '6', '7', '8', '9', 'a', 'b', 'c', 'd', 'e', 'f'];
    assert("0123456789abcdef"@ =~= s);
}

/// The canonical text of `value`: 8-4-4-4-12, lower-case hexadecimal.
pub fn canonical_text(value: u128) -> (r: String)
    ensures
        r@ == canonical_uuid_text(value),
        r@.len() == 36,
{
    let mut rem: u128 = value;
    assert(pow16(0) == 1);
    let mut nibbles: Vec<u8> = Vec::new();
    let mut j: usize = 0;
    while j < 32
        invariant
            0 <= j <= 32,
            nibbles@.len() == j,
            rem as int == value as int / pow16(j as nat) as int,
            forall|t: int| 0 <= t < j ==> nibbles@[t] as int == nibble(value, 31 - t),
        decreases 32 - j,
    {
        proof {
            lemma_pow16_positive(j as nat);
            vstd::arithmetic::div_mod::lemma_div_denominator(
                value as int,
                pow16(j as nat) as int,
                16,
            );
            assert(pow16((j + 1) as nat) == 16 * pow16(j as nat));
            assert(pow16(j as nat) as int * 16 == 16 * pow16(j as nat) as int) by (nonlinear_arith);
            assert((31 - (31 - j)) as nat == j as nat);
        }
        nibbles.push((rem % 16) as u8);
        rem = rem / 16;
        j = j + 1;
    }
    let digits = "0123456789abcdef";
    proof {
        lemma_digit_literal();
    }
    let mut hex = String::new();
    let mut i: usize = 0;
    while i < 32
        invariant
            0 <= i <= 32,
            nibbles@.len() == 32,
            forall|t: int| 0 <= t < 32 ==> nibbles@[t] as int == nibble(value, 31 - t),
            digits@ == "0123456789abcdef"@,
            digits@.len() == 16,
            forall|d: int| 0 <= d < 16 ==> digits@[d] == #[trigger] hex_char(d),
            hex@ == hex32(value).take(i as int),
        decreases 32 - i,
    {
        let d = nibbles[31 - i] as usize;
        assert(d as int == nibble(value, i as int));
        assert(d < 16);
        let piece = digits.substring_char(d, d + 1);
        assert(piece@ == seq![hex_char(d as int)]);
        hex.append(piece);
        assert(hex32(value).take(i + 1) == hex32(value).take(i as int).push(hex_char(d as int)));
        i = i + 1;
    }
    assert(hex32(value).take(32) == hex32(value));
    let h = hex.as_str();
    proof {
        reveal_strlit("-");
    }
    let mut out = String::from_str(h.substring_char(0, 8));
    out.append("-");
    out.append(h.substring_char(8, 12));
    out.append("-");
    out.append(h.substring_char(12, 16));
    out.append("-");
    out.append(h.substring_char(16, 20));
    out.append("-");
    out.append(h.substring_char(20, 32));
    assert("-"@ == seq!['-']);
    out
}

/// Two identifiers with the same canonical text are the same identifier.
pub proof fn law_canonical_text_is_injective(v: u128, w: u128)
    requires
        canonical_uuid_text(v) == canonical_uuid_text(w),
    ensures
        v == w,
{
    law_canonical_text_reads_back(v);
    law_canonical_text_reads_back(w);
}

/// A bare hexadecimal string — digits alone, without the hyphens — is
/// refused, however many digits it has: two spellings of one identifier
/// would otherwise both end up in configuration.
pub proof fn law_bare_hex_is_refused(text: Seq<char>)
    requires
        forall|i: int| 0 <= i < trimmed(text).len() ==> is_hex_digit(#[trigger] trimmed(text)[i]),
    ensures
        uuid_text_value(text) is Err,
{
    let t = trimmed(text);
    assert(is_ascii_chars(t));
    is_ascii_chars_encode_utf8(t);
    if t.len() == 36 {
        assert(is_hex_digit(t[8]));
        assert(encode_utf8(t)[8] == t[8] as u8);
    }
}

/// `c` with an upper-case hexadecimal letter turned to lower case, and left
/// alone otherwise.
pub open spec fn hex_lower(c: char) -> char {
    if 'A' <= c && c <= 'F' {
        seq!['a', 'b', 'c', 'd', 'e', 'f'][c as int - 'A' as int]
    } else {
        c
    }
}

/// `s` with its upper-case hexadecimal letters turned to lower case.
pub open spec fn hex_lowered(s: Seq<char>) -> Seq<char> {
    Seq::new(s.len(), |i: int| hex_lower(s[i]))
}

/// A hexadecimal digit in lower case is the digit for its value, and so is
/// every other spelling of that value.
proof fn lemma_hex_lower(c: char)
    ensures
        is_hex_digit(c) ==> hex_char(hex_digit_value(c)) == hex_lower(c),
        is_hex_digit(c) ==> is_hex_digit(hex_lower(c)) && hex_digit_value(hex_lower(c))
            == hex_digit_value(c),
        hex_lower(c) == '-' <==> c == '-',
        !is_hex_digit(c) ==> !is_hex_digit(hex_lower(c)),
{
    let up = seq!['a', 'b', 'c', 'd', 'e', 'f'];
    assert(up[0] == 'a' && up[1] == 'b' && up[2] == 'c' && up[3] == 'd' && up[4] == 'e' && up[5]
        == 'f');
    let digits = seq!['0', '1', '2', '3', '4', '5', '6', '7', '8', '9', 'a', 'b', 'c', 'd', 'e', 'f'];
    assert(digits[0] == '0' && digits[1] == '1' && digits[2] == '2' && digits[3] == '3'
        && digits[4] == '4' && digits[5] == '5' && digits[6] == '6' && digits[7] == '7'
        && digits[8] == '8' && digits[9] == '9' && digits[10] == 'a' && digits[11] == 'b'
        && digits[12] == 'c' && digits[13] == 'd' && digits[14] == 'e' && digits[15] == 'f');
}

/// The digits `a` then `b` spell `a`'s number shifted left by `b`'s digits,
/// plus `b`'s number.
proof fn lemma_hex_digits_concat(a: Seq<char>, b: Seq<char>)
    requires
        forall|i: int| 0 <= i < b.len() ==> is_hex_digit(#[trigger] b[i]),
    ensures
        hex_digits_value(a + b) == hex_digits_value(a) * pow16(b.len()) + hex_digits_value(b),
    decreases b.len(),
{
    if b.len() == 0 {
        assert(a + b =~= a);
        assert(pow16(0) == 1);
        assert(hex_digits_value(b) == 0);
        assert(hex_digits_value(a) * 1 == hex_digits_value(a));
    } else {
        let b1 = b.drop_last();
        assert forall|i: int| 0 <= i < b1.len() implies is_hex_digit(#[trigger] b1[i]) by {
            assert(b1[i] == b[i]);
        }
        lemma_hex_digits_concat(a, b1);
        lemma_hex_digit_value_bound(b.last());
        assert((a + b).drop_last() =~= a + b1);
        assert((a + b).last() == b.last());
        let x = hex_digits_value(a) as int;
        let p = pow16(b1.len()) as int;
        let y = hex_digits_value(b1) as int;
        assert((x * p + y) * 16 == x * (16 * p) + y * 16) by (nonlinear_arith);
        assert(pow16(b.len()) == 16 * pow16(b1.len()));
        let dv = hex_digit_value(b.last());
        assert(hex_digits_value(a + b) == hex_digits_value(a + b1) * 16 + dv);
        assert(hex_digits_value(b) == y * 16 + dv);
        assert(hex_digits_value(a + b) == x * (16 * p) + y * 16 + dv);
    }
}

/// Digits of equal value, position by position, spell the same number.
proof fn lemma_hex_digits_same_values(a: Seq<char>, b: Seq<char>)
    requires
        a.len() == b.len(),
        forall|i: int| 0 <= i < a.len() ==> hex_digit_value(#[trigger] a[i]) == hex_digit_value(b[i]),
    ensures
        hex_digits_value(a) == hex_digits_value(b),
    decreases a.len(),
{
    if a.len() > 0 {
        let a1 = a.drop_last();
        let b1 = b.drop_last();
        assert forall|i: int| 0 <= i < a1.len() implies hex_digit_value(#[trigger] a1[i])
            == hex_digit_value(b1[i]) by {
            assert(a1[i] == a[i] && b1[i] == b[i]);
        }
        lemma_hex_digits_same_values(a1, b1);
        assert(hex_digit_value(a.last()) == hex_digit_value(b.last()));
    }
}

/// The `k`-th digit of the number that 32 hexadecimal digits spell is the
/// `k`-th of those digits.
proof fn lemma_nibble_of_digits(d: Seq<char>, k: int)
    requires
        d.len() == 32,
        forall|i: int| 0 <= i < 32 ==> is_hex_digit(#[trigger] d[i]),
        0 <= k < 32,
        hex_digits_value(d) <= u128::MAX,
    ensures
        nibble(hex_digits_value(d) as u128, k) == hex_digit_value(d[k]),
{
    let head = d.take(k + 1);
    let tail = d.skip(k + 1);
    assert(head + tail =~= d);
    assert forall|i: int| 0 <= i < tail.len() implies is_hex_digit(#[trigger] tail[i]) by {
        assert(tail[i] == d[i + k + 1]);
    }
    lemma_hex_digits_concat(head, tail);
    lemma_hex_digits_value_bound(tail, pow16(tail.len()));
    assert(tail.len() == 31 - k);
    let p = pow16((31 - k) as nat) as int;
    let q = hex_digits_value(head) as int;
    let r = hex_digits_value(tail) as int;
    vstd::arithmetic::div_mod::lemma_fundamental_div_mod_converse(q * p + r, p, q, r);
    assert(head.drop_last() =~= d.take(k));
    assert(head.last() == d[k]);
    lemma_hex_digit_value_bound(d[k]);
    vstd::arithmetic::div_mod::lemma_fundamental_div_mod_converse(
        q,
        16,
        hex_digits_value(d.take(k)) as int,
        hex_digit_value(d[k]),
    );
}

/// A text reads as `v` exactly when, trimmed and with its hexadecimal letters
/// in lower case, it is the canonical text of `v`. So the canonical text is
/// the one spelling of an identifier, up to the case of its letters and
/// surrounding white space.
pub proof fn law_a_text_reads_as_the_identifier_it_spells(text: Seq<char>, v: u128)
    ensures
        (uuid_text_value(text) == Ok::<u128, Seq<char>>(v)) == (hex_lowered(trimmed(text))
            == canonical_uuid_text(v)),
{
    let t = trimmed(text);
    let low = hex_lowered(t);
    let c = canonical_uuid_text(v);
    law_canonical_text_reads_back(v);
    law_only_the_uuid_form_reads(text);
    if uuid_text_value(text) == Ok::<u128, Seq<char>>(v) {
        let d = uuid_digits(t);
        lemma_uuid_digits_read(t);
        assert forall|k: int| 0 <= k < 32 implies is_hex_digit(#[trigger] d[k]) by {
            if k < 8 {
                assert(d[k] == t[k]);
            } else if k < 12 {
                assert(d[k] == t[k + 1]);
            } else if k < 16 {
                assert(d[k] == t[k + 2]);
            } else if k < 20 {
                assert(d[k] == t[k + 3]);
            } else {
                assert(d[k] == t[k + 4]);
            }
        }
        assert(hex_digits_value(d) == v);
        assert forall|i: int| 0 <= i < 36 implies #[trigger] low[i] == c[i] by {
            lemma_hex_lower(t[i]);
            if is_hyphen_position(i) {
                assert(t[i] == '-');
            } else {
                let k = if i < 8 {
                    i
                } else if i < 13 {
                    i - 1
                } else if i < 18 {
                    i - 2
                } else if i < 23 {
                    i - 3
                } else {
                    i - 4
                };
                assert(d[k] == t[i]);
                lemma_nibble_of_digits(d, k);
                assert(c[i] == hex32(v)[k]);
            }
        }
        assert(low =~= c);
    }
    if low == c {
        assert(t.len() == 36);
        assert forall|i: int| #![trigger t[i]] 0 <= i < 36 implies if is_hyphen_position(i) {
            t[i] == '-'
        } else {
            is_hex_digit(t[i])
        } by {
            lemma_hex_lower(t[i]);
            assert(low[i] == c[i]);
        }
        assert(in_uuid_form(t));
        let d = uuid_digits(t);
        let h = hex32(v);
        assert(uuid_digits(c) =~= h);
        assert forall|k: int| 0 <= k < 32 implies hex_digit_value(#[trigger] d[k])
            == hex_digit_value(h[k]) by {
            let i = if k < 8 {
                k
            } else if k < 12 {
                k + 1
            } else if k < 16 {
                k + 2
            } else if k < 20 {
                k + 3
            } else {
                k + 4
            };
            assert(d[k] == t[i]);
            assert(h[k] == c[i]);
            assert(low[i] == c[i]);
            lemma_hex_lower(t[i]);
        }
        lemma_hex_digits_same_values(d, h);
        assert(hex_digits_value(uuid_digits(c)) == v);
    }
}

} // verus!
