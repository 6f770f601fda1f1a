//! Character-level building blocks of the MySensors ASCII wire format:
//! decimal numbers, hexadecimal payload text, whitespace trimming and
//! splitting a frame into its `;`-separated fields.

use vstd::prelude::*;

verus! {

/// The characters that count as surrounding whitespace on a frame line.
pub open spec fn is_ws_char(c: char) -> bool {
    c == ' ' || c == '\n' || c == '\r' || c == '\t'
}

/// Decimal digit value of a character, if it is one.
pub open spec fn dec_digit_val(c: char) -> Option<u8> {
    match c {
        '0' => Some(0u8),
        '1' => Some(1u8),
        '2' => Some(2u8),
        '3' => Some(3u8),
        '4' => Some(4u8),
        '5' => Some(5u8),
        '6' => Some(6u8),
        '7' => Some(7u8),
        '8' => Some(8u8),
        '9' => Some(9u8),
        _ => None,
    }
}

pub open spec fn is_dec_digit(c: char) -> bool {
    dec_digit_val(c) is Some
}

/// The digit character for a value below ten.
pub open spec fn dec_digit_char(d: int) -> char {
    if d == 0 {
        '0'
    } else if d == 1 {
        '1'
    } else if d == 2 {
        '2'
    } else if d == 3 {
        '3'
    } else if d == 4 {
        '4'
    } else if d == 5 {
        '5'
    } else if d == 6 {
        '6'
    } else if d == 7 {
        '7'
    } else if d == 8 {
        '8'
    } else if d == 9 {
        '9'
    } else {
        '?'
    }
}

/// Value of a digit string, most significant digit first.
pub open spec fn dec_digits_val(s: Seq<char>) -> int
    decreases s.len(),
{
    if s.len() == 0 {
        0
    } else {
        dec_digits_val(s.drop_last()) * 10 + dec_digit_val(s.last()).unwrap()
    }
}

pub open spec fn all_dec_digits(s: Seq<char>) -> bool {
    forall|i: int| 0 <= i < s.len() ==> is_dec_digit(#[trigger] s[i])
}

/// What parsing a field as an 8-bit unsigned decimal number yields: defined
/// exactly when the field is a non-empty digit string whose value fits.
pub open spec fn dec_parse_u8(s: Seq<char>) -> Option<u8> {
    if s.len() > 0 && all_dec_digits(s) && dec_digits_val(s) <= 255 {
        Some(dec_digits_val(s) as u8)
    } else {
        None
    }
}

/// The value of a digit string never shrinks when more digits follow.
pub proof fn lemma_dec_digits_val_nonneg(s: Seq<char>)
    requires
        all_dec_digits(s),
    ensures
        dec_digits_val(s) >= 0,
    decreases s.len(),
{
    if s.len() > 0 {
        assert(is_dec_digit(s.last()));
        assert(all_dec_digits(s.drop_last())) by {
            assert forall|i: int| 0 <= i < s.len() - 1 implies is_dec_digit(
                #[trigger] s.drop_last()[i],
            ) by {
                assert(s.drop_last()[i] == s[i]);
            }
        }
        lemma_dec_digits_val_nonneg(s.drop_last());
    }
}

/// A digit string is worth at least as much as any of its prefixes.
pub proof fn lemma_dec_digits_val_monotone(s: Seq<char>, j: int)
    requires
        all_dec_digits(s),
        0 <= j <= s.len(),
    ensures
        dec_digits_val(s) >= dec_digits_val(s.take(j)),
    decreases s.len() - j,
{
    if j < s.len() {
        lemma_dec_digits_val_monotone(s, j + 1);
        assert(s.take(j + 1).drop_last() =~= s.take(j));
        assert(s.take(j + 1).last() == s[j]);
        assert(all_dec_digits(s.take(j))) by {
            assert forall|i: int| 0 <= i < j implies is_dec_digit(#[trigger] s.take(j)[i]) by {
                assert(s.take(j)[i] == s[i]);
            }
        }
        lemma_dec_digits_val_nonneg(s.take(j));
        assert(dec_digits_val(s.take(j + 1)) == dec_digits_val(s.take(j)) * 10 + dec_digit_val(
            s[j],
        ).unwrap());
    } else {
        assert(s.take(j) =~= s);
    }
}

/// Parse a field as an 8-bit unsigned decimal number.
pub fn parse_dec_u8(s: &str) -> (r: Option<u8>)
    ensures
        r == dec_parse_u8(s@),
{
    let n = s.unicode_len();
    if n == 0 {
        return None;
    }
    let mut val: u32 = 0;
    let mut i: usize = 0;
    while i < n
        invariant
            0 < n == s@.len(),
            0 <= i <= n,
            all_dec_digits(s@.take(i as int)),
            val == dec_digits_val(s@.take(i as int)),
            val <= 255,
        decreases n - i,
    {
        let c = s.get_char(i);
        let d: u32 = match c {
            '0' => 0,
            '1' => 1,
            '2' => 2,
            '3' => 3,
            '4' => 4,
            '5' => 5,
            '6' => 6,
            '7' => 7,
            '8' => 8,
            '9' => 9,
            _ => {
                assert(!is_dec_digit(s@[i as int]));
                return None;
            },
        };
        proof {
            assert(s@.take(i + 1).drop_last() =~= s@.take(i as int));
            assert(s@.take(i + 1).last() == s@[i as int]);
            assert(all_dec_digits(s@.take(i + 1))) by {
                assert forall|k: int| 0 <= k < i + 1 implies is_dec_digit(
                    #[trigger] s@.take(i + 1)[k],
                ) by {
                    if k < i {
                        assert(s@.take(i + 1)[k] == s@.take(i as int)[k]);
                    }
                }
            }
        }
        let next: u32 = val * 10 + d;
        if next > 255 {
            proof {
                if all_dec_digits(s@) {
                    lemma_dec_digits_val_monotone(s@, i + 1);
                }
            }
            return None;
        }
        val = next;
        i = i + 1;
    }
    proof {
        assert(s@.take(n as int) =~= s@);
    }
    Some(val as u8)
}

/// What parsing a field as a 32-bit unsigned decimal number yields.
pub open spec fn dec_parse_u32(s: Seq<char>) -> Option<u32> {
    if s.len() > 0 && all_dec_digits(s) && dec_digits_val(s) <= u32::MAX {
        Some(dec_digits_val(s) as u32)
    } else {
        None
    }
}

/// Parse a field as a 32-bit unsigned decimal number.
pub fn parse_dec_u32(s: &str) -> (r: Option<u32>)
    ensures
        r == dec_parse_u32(s@),
{
    let n = s.unicode_len();
    if n == 0 {
        return None;
    }
    let mut val: u64 = 0;
    let mut i: usize = 0;
    while i < n
        invariant
            0 < n == s@.len(),
            0 <= i <= n,
            all_dec_digits(s@.take(i as int)),
            val == dec_digits_val(s@.take(i as int)),
            val <= u32::MAX,
        decreases n - i,
    {
        let c = s.get_char(i);
        let d: u64 = match c {
            '0' => 0,
            '1' => 1,
            '2' => 2,
            '3' => 3,
            '4' => 4,
            '5' => 5,
            '6' => 6,
            '7' => 7,
            '8' => 8,
            '9' => 9,
            _ => {
                assert(!is_dec_digit(s@[i as int]));
                return None;
            },
        };
        proof {
            assert(s@.take(i + 1).drop_last() =~= s@.take(i as int));
            assert(s@.take(i + 1).last() == s@[i as int]);
            assert(all_dec_digits(s@.take(i + 1))) by {
                assert forall|k: int| 0 <= k < i + 1 implies is_dec_digit(
                    #[trigger] s@.take(i + 1)[k],
                ) by {
                    if k < i {
                        assert(s@.take(i + 1)[k] == s@.take(i as int)[k]);
                    }
                }
            }
        }
        let next: u64 = val * 10 + d;
        if next > u32::MAX as u64 {
            proof {
                if all_dec_digits(s@) {
                    lemma_dec_digits_val_monotone(s@, i + 1);
                }
            }
            return None;
        }
        val = next;
        i = i + 1;
    }
    proof {
        assert(s@.take(n as int) =~= s@);
    }
    Some(val as u32)
}

/// Canonical decimal rendering of an 8-bit value: no sign, no leading zeros.
pub open spec fn dec_render_u8(n: u8) -> Seq<char> {
    if n < 10 {
        seq![dec_digit_char(n as int)]
    } else if n < 100 {
        seq![dec_digit_char(n as int / 10), dec_digit_char(n as int % 10)]
    } else {
        seq![
            dec_digit_char(n as int / 100),
            dec_digit_char((n as int / 10) % 10),
            dec_digit_char(n as int % 10),
        ]
    }
}

/// Relies on `String::push`: appends the character at the end of the string.
#[verifier::external_body]
pub(crate) fn push_char(s: &mut String, c: char)
    ensures
        final(s)@ == old(s)@.push(c),
{
    s.push(c);
}

/// The character for one decimal digit.
fn dec_digit_of(d: u8) -> (c: char)
    requires
        d < 10,
    ensures
        c == dec_digit_char(d as int),
{
    match d {
        0 => '0',
        1 => '1',
        2 => '2',
        3 => '3',
        4 => '4',
        5 => '5',
        6 => '6',
        7 => '7',
        8 => '8',
        _ => '9',
    }
}

/// Append the canonical decimal rendering of an 8-bit value.
pub fn append_dec_u8(out: &mut String, n: u8)
    ensures
        final(out)@ == old(out)@ + dec_render_u8(n),
{
    if n < 10 {
        push_char(out, dec_digit_of(n));
        assert(out@ =~= old(out)@ + dec_render_u8(n));
    } else if n < 100 {
        push_char(out, dec_digit_of(n / 10));
        push_char(out, dec_digit_of(n % 10));
        assert(out@ =~= old(out)@ + dec_render_u8(n));
    } else {
        push_char(out, dec_digit_of(n / 100));
        push_char(out, dec_digit_of((n / 10) % 10));
        push_char(out, dec_digit_of(n % 10));
        assert(out@ =~= old(out)@ + dec_render_u8(n));
    }
}

/// Every character of a canonical decimal rendering is a digit, and the
/// rendering is never empty.
pub proof fn lemma_dec_render_digits(n: u8)
    ensures
        all_dec_digits(dec_render_u8(n)),
        1 <= dec_render_u8(n).len() <= 3,
{
}

/// Parsing the canonical decimal rendering of a value gives the value back.
pub proof fn lemma_dec_round_trip(n: u8)
    ensures
        dec_parse_u8(dec_render_u8(n)) == Some(n),
{
    let s = dec_render_u8(n);
    lemma_dec_render_digits(n);
    assert(dec_digits_val(Seq::<char>::empty()) == 0);
    if n < 10 {
        assert(s.drop_last() =~= Seq::<char>::empty());
        assert(dec_digits_val(s) == n);
    } else if n < 100 {
        let s1 = s.drop_last();
        assert(s1.drop_last() =~= Seq::<char>::empty());
        assert(dec_digits_val(s1) == n as int / 10);
        assert(dec_digits_val(s) == (n as int / 10) * 10 + (n as int % 10));
        assert(dec_digits_val(s) == n);
    } else {
        let s2 = s.drop_last();
        let s1 = s2.drop_last();
        assert(s1.drop_last() =~= Seq::<char>::empty());
        assert(dec_digits_val(s1) == n as int / 100);
        assert(dec_digits_val(s2) == (n as int / 100) * 10 + ((n as int / 10) % 10));
        assert(dec_digits_val(s2) == n as int / 10);
        assert(dec_digits_val(s) == (n as int / 10) * 10 + (n as int % 10));
        assert(dec_digits_val(s) == n);
    }
}

/// Hexadecimal digit value of a character; both cases are accepted.
pub open spec fn hex_digit_val(c: char) -> Option<u8> {
    match c {
        '0' => Some(0u8),
        '1' => Some(1u8),
        '2' => Some(2u8),
        '3' => Some(3u8),
        '4' => Some(4u8),
        '5' => Some(5u8),
        '6' => Some(6u8),
        '7' => Some(7u8),
        '8' => Some(8u8),
        '9' => Some(9u8),
        'a' => Some(10u8),
        'b' => Some(11u8),
        'c' => Some(12u8),
        'd' => Some(13u8),
        'e' => Some(14u8),
        'f' => Some(15u8),
        'A' => Some(10u8),
        'B' => Some(11u8),
        'C' => Some(12u8),
        'D' => Some(13u8),
        'E' => Some(14u8),
        'F' => Some(15u8),
        _ => None,
    }
}

pub open spec fn is_hex_digit(c: char) -> bool {
    hex_digit_val(c) is Some
}

pub open spec fn all_hex_digits(s: Seq<char>) -> bool {
    forall|i: int| 0 <= i < s.len() ==> is_hex_digit(#[trigger] s[i])
}

/// The byte encoded by the pair of digits at position `2 * i`.
pub open spec fn hex_byte_at(s: Seq<char>, i: int) -> u8 {
    (hex_digit_val(s[2 * i]).unwrap() * 16 + hex_digit_val(s[2 * i + 1]).unwrap()) as u8
}

pub open spec fn hex_decode_val(s: Seq<char>) -> Seq<u8> {
    Seq::new((s.len() / 2) as nat, |i: int| hex_byte_at(s, i))
}

/// What decoding a hex field yields: the bytes, exactly when the field has
/// even length and holds hex digits only.
pub open spec fn hex_decode_spec(s: Seq<char>) -> Option<Seq<u8>> {
    if s.len() % 2 == 0 && all_hex_digits(s) {
        Some(hex_decode_val(s))
    } else {
        None
    }
}

/// The upper-case character for one hexadecimal digit.
pub open spec fn hex_upper_char(d: int) -> char {
    if d < 10 {
        dec_digit_char(d)
    } else if d == 10 {
        'A'
    } else if d == 11 {
        'B'
    } else if d == 12 {
        'C'
    } else if d == 13 {
        'D'
    } else if d == 14 {
        'E'
    } else if d == 15 {
        'F'
    } else {
        '?'
    }
}

/// The lower-case character for one hexadecimal digit.
pub open spec fn hex_lower_char(d: int) -> char {
    if d < 10 {
        dec_digit_char(d)
    } else if d == 10 {
        'a'
    } else if d == 11 {
        'b'
    } else if d == 12 {
        'c'
    } else if d == 13 {
        'd'
    } else if d == 14 {
        'e'
    } else if d == 15 {
        'f'
    } else {
        '?'
    }
}

/// Upper-case hex rendering of a byte sequence: two digits for each byte.
pub open spec fn hex_upper_of(b: Seq<u8>) -> Seq<char> {
    Seq::new(
        (2 * b.len()) as nat,
        |i: int|
            if i % 2 == 0 {
                hex_upper_char(b[i / 2] as int / 16)
            } else {
                hex_upper_char(b[i / 2] as int % 16)
            },
    )
}

/// Lower-case hex rendering of a byte sequence.
pub open spec fn hex_lower_of(b: Seq<u8>) -> Seq<char> {
    Seq::new(
        (2 * b.len()) as nat,
        |i: int|
            if i % 2 == 0 {
                hex_lower_char(b[i / 2] as int / 16)
            } else {
                hex_lower_char(b[i / 2] as int % 16)
            },
    )
}

/// Decoding an upper-case hex rendering gives the bytes back.
pub proof fn lemma_hex_round_trip(b: Seq<u8>)
    ensures
        hex_decode_spec(hex_upper_of(b)) == Some(b),
{
    let s = hex_upper_of(b);
    assert(all_hex_digits(s)) by {
        assert forall|i: int| 0 <= i < s.len() implies is_hex_digit(#[trigger] s[i]) by {
            assert(0 <= i / 2 < b.len());
        }
    }
    assert(hex_decode_val(s) =~= b) by {
        assert forall|i: int| 0 <= i < b.len() implies hex_byte_at(s, i) == b[i] by {
            assert(s[2 * i] == hex_upper_char(b[i] as int / 16));
            assert((2 * i + 1) / 2 == i && (2 * i + 1) % 2 == 1);
            assert(s[2 * i + 1] == hex_upper_char(b[i] as int % 16));
            assert(b[i] as int / 16 * 16 + b[i] as int % 16 == b[i]);
        }
    }
}

#[verifier::external_type_specification]
#[verifier::external_body]
pub struct ExFromHexError(hex::FromHexError);

/// Relies on `hex::decode`: it accepts an even number of hexadecimal digits
/// of either case and returns the encoded bytes, and rejects anything else.
/// It works on the UTF-8 bytes of the field; every byte of a multi-byte
/// character is at least 0x80 and so rejected, hence success and the decoded
/// bytes agree with the character-level statement below.
#[verifier::external_body]
pub(crate) fn hex_decode(s: &str) -> (r: Result<Vec<u8>, hex::FromHexError>)
    ensures
        r is Ok <==> hex_decode_spec(s@) is Some,
        r matches Ok(v) ==> hex_decode_spec(s@) == Some(v@),
{
    hex::decode(s)
}

/// Relies on `hex::encode_upper`: two upper-case digits for each byte, in
/// order.
#[verifier::external_body]
pub(crate) fn hex_encode_upper(b: &[u8]) -> (r: String)
    ensures
        r@ == hex_upper_of(b@),
{
    hex::encode_upper(b)
}

/// Relies on `hex::encode`: two lower-case digits for each byte, in order.
#[verifier::external_body]
pub(crate) fn hex_encode_lower(b: &[u8]) -> (r: String)
    ensures
        r@ == hex_lower_of(b@),
{
    hex::encode(b)
}

pub open spec fn trim_front_spec(s: Seq<char>) -> Seq<char>
    decreases s.len(),
{
    if s.len() > 0 && is_ws_char(s[0]) {
        trim_front_spec(s.drop_first())
    } else {
        s
    }
}

pub open spec fn trim_back_spec(s: Seq<char>) -> Seq<char>
    decreases s.len(),
{
    if s.len() > 0 && is_ws_char(s.last()) {
        trim_back_spec(s.drop_last())
    } else {
        s
    }
}

/// The line with surrounding whitespace removed.
pub open spec fn trim_spec(s: Seq<char>) -> Seq<char> {
    trim_back_spec(trim_front_spec(s))
}

/// Whether a character counts as surrounding whitespace.
pub fn is_ws(c: char) -> (r: bool)
    ensures
        r == is_ws_char(c),
{
    c == ' ' || c == '\n' || c == '\r' || c == '\t'
}

/// Remove surrounding whitespace from a line.
pub fn trim_ws(s: &str) -> (r: &str)
    ensures
        r@ == trim_spec(s@),
{
    let n = s.unicode_len();
    let mut start: usize = 0;
    proof {
        assert(s@.skip(0) =~= s@);
    }
    while start < n && is_ws(s.get_char(start))
        invariant
            0 <= start <= n == s@.len(),
            trim_front_spec(s@) == trim_front_spec(s@.skip(start as int)),
        decreases n - start,
    {
        proof {
            assert(s@.skip(start as int).drop_first() =~= s@.skip(start + 1));
        }
        start = start + 1;
    }
    proof {
        if start < n {
            assert(trim_front_spec(s@.skip(start as int)) == s@.skip(start as int));
        } else {
            assert(s@.skip(n as int) =~= Seq::<char>::empty());
        }
    }
    let mut end: usize = n;
    proof {
        assert(s@.skip(start as int).take(n - start) =~= s@.skip(start as int));
    }
    while end > start && is_ws(s.get_char(end - 1))
        invariant
            0 <= start <= end <= n == s@.len(),
            trim_front_spec(s@) == s@.skip(start as int),
            trim_back_spec(s@.skip(start as int)) == trim_back_spec(
                s@.skip(start as int).take(end - start),
            ),
        decreases end,
    {
        proof {
            let u = s@.skip(start as int).take(end - start);
            assert(u.last() == s@[end - 1]);
            assert(u.drop_last() =~= s@.skip(start as int).take(end - 1 - start as int));
        }
        end = end - 1;
    }
    proof {
        let u = s@.skip(start as int).take(end - start);
        if end > start {
            assert(u.last() == s@[end - 1]);
            assert(trim_back_spec(u) == u);
        } else {
            assert(u =~= Seq::<char>::empty());
        }
    }
    let r = s.substring_char(start, end);
    proof {
        assert(r@ =~= s@.skip(start as int).take(end - start));
    }
    r
}

/// A field holds no separator of its own.
pub open spec fn has_no_semi(s: Seq<char>) -> bool {
    forall|i: int| 0 <= i < s.len() ==> #[trigger] s[i] != ';'
}

/// Split a line at each `;`. The result always has one part more than the
/// line has separators.
pub open spec fn split_semi_spec(s: Seq<char>) -> Seq<Seq<char>>
    decreases s.len(),
{
    if s.len() == 0 {
        seq![Seq::<char>::empty()]
    } else if s[0] == ';' {
        seq![Seq::<char>::empty()] + split_semi_spec(s.drop_first())
    } else {
        let rest = split_semi_spec(s.drop_first());
        seq![seq![s[0]] + rest[0]] + rest.drop_first()
    }
}

pub proof fn lemma_split_semi_len(s: Seq<char>)
    ensures
        split_semi_spec(s).len() >= 1,
    decreases s.len(),
{
    if s.len() > 0 {
        lemma_split_semi_len(s.drop_first());
    }
}

/// A separator-free line is a single field.
pub proof fn lemma_split_semi_whole(s: Seq<char>)
    requires
        has_no_semi(s),
    ensures
        split_semi_spec(s) == seq![s],
    decreases s.len(),
{
    if s.len() == 0 {
        assert(split_semi_spec(s) =~~= seq![s]);
    } else {
        assert(has_no_semi(s.drop_first())) by {
            assert forall|i: int| 0 <= i < s.len() - 1 implies #[trigger] s.drop_first()[i]
                != ';' by {
                assert(s.drop_first()[i] == s[i + 1]);
            }
        }
        lemma_split_semi_whole(s.drop_first());
        assert(seq![s[0]] + s.drop_first() =~= s);
        assert(split_semi_spec(s) =~~= seq![s]);
    }
}

/// Splitting `a;rest` where `a` is separator-free puts `a` first.
pub proof fn lemma_split_semi_prepend(a: Seq<char>, rest: Seq<char>)
    requires
        has_no_semi(a),
    ensures
        split_semi_spec(a + seq![';'] + rest) == seq![a] + split_semi_spec(rest),
    decreases a.len(),
{
    let s = a + seq![';'] + rest;
    if a.len() == 0 {
        assert(s[0] == ';');
        assert(s.drop_first() =~= rest);
        assert(split_semi_spec(s) =~~= seq![a] + split_semi_spec(rest));
    } else {
        assert(has_no_semi(a.drop_first())) by {
            assert forall|i: int| 0 <= i < a.len() - 1 implies #[trigger] a.drop_first()[i]
                != ';' by {
                assert(a.drop_first()[i] == a[i + 1]);
            }
        }
        lemma_split_semi_prepend(a.drop_first(), rest);
        lemma_split_semi_len(rest);
        assert(s[0] == a[0]);
        assert(s.drop_first() =~= a.drop_first() + seq![';'] + rest);
        let inner = split_semi_spec(s.drop_first());
        assert(inner == seq![a.drop_first()] + split_semi_spec(rest));
        assert(inner[0] == a.drop_first());
        assert(seq![s[0]] + inner[0] =~= a);
        assert(inner.drop_first() =~= split_semi_spec(rest));
        assert(split_semi_spec(s) =~~= seq![a] + split_semi_spec(rest));
    }
}

/// Split a line at each `;` into owned fields.
pub fn split_semi(s: &str) -> (parts: Vec<String>)
    ensures
        parts.deep_view() == split_semi_spec(s@),
{
    let n = s.unicode_len();
    let mut parts: Vec<String> = Vec::new();
    let mut cur = String::new();
    let mut i: usize = 0;
    proof {
        assert(s@.skip(0) =~= s@);
        lemma_split_semi_len(s@);
        assert(parts.deep_view() =~= Seq::<Seq<char>>::empty());
        assert(cur@ + split_semi_spec(s@)[0] =~= split_semi_spec(s@)[0]);
        assert(split_semi_spec(s@) =~= parts.deep_view() + seq![cur@ + split_semi_spec(s@)[0]]
            + split_semi_spec(s@).drop_first());
    }
    while i < n
        invariant
            0 <= i <= n == s@.len(),
            split_semi_spec(s@) == parts.deep_view() + seq![cur@ + split_semi_spec(
                s@.skip(i as int),
            )[0]] + split_semi_spec(s@.skip(i as int)).drop_first(),
        decreases n - i,
    {
        let c = s.get_char(i);
        proof {
            assert(s@.skip(i as int)[0] == s@[i as int]);
            assert(s@.skip(i as int).drop_first() =~= s@.skip(i + 1));
            lemma_split_semi_len(s@.skip(i + 1));
        }
        if c == ';' {
            let done = cur;
            cur = String::new();
            let ghost old_parts = parts.deep_view();
            parts.push(done);
            proof {
                assert(parts.deep_view() =~= old_parts.push(done@));
                let tail = split_semi_spec(s@.skip(i + 1));
                assert(split_semi_spec(s@.skip(i as int)) == seq![Seq::<char>::empty()] + tail);
                assert((seq![Seq::<char>::empty()] + tail)[0] =~= Seq::<char>::empty());
                assert(cur@ + tail[0] =~= tail[0]);
                assert(done@ + (seq![Seq::<char>::empty()] + tail)[0] =~= done@);
                assert((seq![Seq::<char>::empty()] + tail).drop_first() =~= tail);
                assert(parts.deep_view() + seq![cur@ + tail[0]] + tail.drop_first()
                    =~= old_parts.push(done@) + seq![tail[0]] + tail.drop_first());
                assert(old_parts + seq![done@ + (seq![Seq::<char>::empty()] + tail)[0]] + (seq![
                    Seq::<char>::empty(),
                ] + tail).drop_first() =~= old_parts.push(done@) + seq![tail[0]]
                    + tail.drop_first());
            }
        } else {
            let ghost old_cur = cur@;
            push_char(&mut cur, c);
            proof {
                let tail = split_semi_spec(s@.skip(i + 1));
                let inner = split_semi_spec(s@.skip(i as int));
                assert(inner == seq![seq![s@[i as int]] + tail[0]] + tail.drop_first());
                assert(inner[0] == seq![s@[i as int]] + tail[0]);
                assert(cur@ + tail[0] =~= old_cur + inner[0]);
                assert(inner.drop_first() =~= tail.drop_first());
            }
        }
        i = i + 1;
    }
    proof {
        assert(s@.skip(n as int) =~= Seq::<char>::empty());
        let tail = split_semi_spec(Seq::<char>::empty());
        assert(tail == seq![Seq::<char>::empty()]);
        assert(cur@ + tail[0] =~= cur@);
        assert(tail.drop_first() =~= Seq::<Seq<char>>::empty());
        assert(split_semi_spec(s@) =~= parts.deep_view() + seq![cur@]);
    }
    let ghost old_parts = parts.deep_view();
    parts.push(cur);
    proof {
        assert(parts.deep_view() =~= old_parts.push(cur@));
    }
    parts
}

/// Digit characters are neither separators nor whitespace.
pub proof fn lemma_digits_plain(s: Seq<char>)
    requires
        all_dec_digits(s),
    ensures
        has_no_semi(s),
        s.len() > 0 ==> !is_ws_char(s[0]),
        s.len() > 0 ==> !is_ws_char(s.last()),
{
    assert forall|i: int| 0 <= i < s.len() implies #[trigger] s[i] != ';' by {
        assert(is_dec_digit(s[i]));
    }
    if s.len() > 0 {
        assert(is_dec_digit(s[0]));
        assert(is_dec_digit(s.last()));
    }
}

/// The textual form of a frame: six `;`-separated fields and a newline.
pub open spec fn render_fields(
    node_id: u8,
    child_sensor_id: u8,
    command: u8,
    ack: u8,
    sub_type: u8,
    payload: Seq<char>,
) -> Seq<char> {
    dec_render_u8(node_id) + seq![';'] + dec_render_u8(child_sensor_id) + seq![';']
        + dec_render_u8(command) + seq![';'] + dec_render_u8(ack) + seq![';'] + dec_render_u8(
        sub_type,
    ) + seq![';'] + payload + seq!['\n']
}

/// Trimming and splitting a rendered frame line recovers its six fields,
/// whenever the payload has no separator of its own and does not end in
/// whitespace.
/// A payload that survives the trip onto the wire and back: it holds no
/// field separator and does not end in whitespace, which trimming would eat.
pub open spec fn canonical_payload(p: Seq<char>) -> bool {
    has_no_semi(p) && (p.len() > 0 ==> !is_ws_char(p.last()))
}

/// Upper-case hex text is a canonical payload.
pub proof fn lemma_hex_upper_plain(b: Seq<u8>)
    ensures
        canonical_payload(hex_upper_of(b)),
{
    let s = hex_upper_of(b);
    assert forall|i: int| 0 <= i < s.len() implies #[trigger] s[i] != ';' && !is_ws_char(s[i]) by {
        assert(0 <= i / 2 < b.len());
        assert(0 <= b[i / 2] as int / 16 < 16 && 0 <= b[i / 2] as int % 16 < 16);
    }
    if s.len() > 0 {
        assert(!is_ws_char(s[s.len() - 1]));
    }
}

/// Splitting five separator-free fields joined right-nested before a
/// separator-free tail recovers the six fields.
proof fn lemma_split_join_chain(
    d0: Seq<char>,
    d1: Seq<char>,
    d2: Seq<char>,
    d3: Seq<char>,
    d4: Seq<char>,
    payload: Seq<char>,
)
    requires
        has_no_semi(d0),
        has_no_semi(d1),
        has_no_semi(d2),
        has_no_semi(d3),
        has_no_semi(d4),
        has_no_semi(payload),
    ensures
        split_semi_spec(
            d0 + seq![';'] + (d1 + seq![';'] + (d2 + seq![';'] + (d3 + seq![';'] + (d4 + seq![';']
                + payload)))),
        ) == seq![d0, d1, d2, d3, d4, payload],
{
    let r4 = d4 + seq![';'] + payload;
    let r3 = d3 + seq![';'] + r4;
    let r2 = d2 + seq![';'] + r3;
    let r1 = d1 + seq![';'] + r2;
    lemma_split_semi_whole(payload);
    lemma_split_semi_prepend(d4, payload);
    assert(split_semi_spec(r4) =~~= seq![d4, payload]);
    lemma_split_semi_prepend(d3, r4);
    assert(split_semi_spec(r3) =~~= seq![d3, d4, payload]);
    lemma_split_semi_prepend(d2, r3);
    assert(split_semi_spec(r2) =~~= seq![d2, d3, d4, payload]);
    lemma_split_semi_prepend(d1, r2);
    assert(split_semi_spec(r1) =~~= seq![d1, d2, d3, d4, payload]);
    lemma_split_semi_prepend(d0, r1);
    assert(split_semi_spec(d0 + seq![';'] + r1) =~~= seq![d0, d1, d2, d3, d4, payload]);
}

/// Trimming a rendered frame line removes exactly the final newline.
#[verifier::rlimit(100)]
proof fn lemma_trim_frame(
    node_id: u8,
    child_sensor_id: u8,
    command: u8,
    ack: u8,
    sub_type: u8,
    payload: Seq<char>,
)
    requires
        payload.len() > 0 ==> !is_ws_char(payload.last()),
    ensures
        trim_spec(render_fields(node_id, child_sensor_id, command, ack, sub_type, payload))
            == dec_render_u8(node_id) + seq![';'] + dec_render_u8(child_sensor_id) + seq![';']
            + dec_render_u8(command) + seq![';'] + dec_render_u8(ack) + seq![';'] + dec_render_u8(
            sub_type,
        ) + seq![';'] + payload,
{
    let d0 = dec_render_u8(node_id);
    lemma_dec_render_digits(node_id);
    lemma_digits_plain(d0);
    let body = d0 + seq![';'] + dec_render_u8(child_sensor_id) + seq![';'] + dec_render_u8(command)
        + seq![';'] + dec_render_u8(ack) + seq![';'] + dec_render_u8(sub_type) + seq![';']
        + payload;
    let line = render_fields(node_id, child_sensor_id, command, ack, sub_type, payload);
    assert(line =~= body + seq!['\n']);
    assert(line[0] == d0[0]);
    assert(trim_front_spec(line) == line);
    assert(line.last() == '\n');
    assert(line.drop_last() =~= body);
    if payload.len() > 0 {
        assert(body.last() == payload.last());
    } else {
        assert(body.last() == ';');
    }
    assert(trim_back_spec(body) == body);
}

/// Trimming and splitting a rendered frame line recovers its six fields,
/// whenever the payload has no separator of its own and does not end in
/// whitespace.
#[verifier::rlimit(100)]
pub proof fn lemma_render_fields_split(
    node_id: u8,
    child_sensor_id: u8,
    command: u8,
    ack: u8,
    sub_type: u8,
    payload: Seq<char>,
)
    requires
        has_no_semi(payload),
        payload.len() > 0 ==> !is_ws_char(payload.last()),
    ensures
        split_semi_spec(
            trim_spec(render_fields(node_id, child_sensor_id, command, ack, sub_type, payload)),
        ) == seq![
            dec_render_u8(node_id),
            dec_render_u8(child_sensor_id),
            dec_render_u8(command),
            dec_render_u8(ack),
            dec_render_u8(sub_type),
            payload,
        ],
{
    let d0 = dec_render_u8(node_id);
    let d1 = dec_render_u8(child_sensor_id);
    let d2 = dec_render_u8(command);
    let d3 = dec_render_u8(ack);
    let d4 = dec_render_u8(sub_type);
    lemma_dec_render_digits(node_id);
    lemma_dec_render_digits(child_sensor_id);
    lemma_dec_render_digits(command);
    lemma_dec_render_digits(ack);
    lemma_dec_render_digits(sub_type);
    lemma_digits_plain(d0);
    lemma_digits_plain(d1);
    lemma_digits_plain(d2);
    lemma_digits_plain(d3);
    lemma_digits_plain(d4);
    lemma_trim_frame(node_id, child_sensor_id, command, ack, sub_type, payload);
    let s = seq![';'];
    let p = payload;
    let r4 = d4 + s + p;
    let r3 = d3 + s + r4;
    let r2 = d2 + s + r3;
    let r1 = d1 + s + r2;
    let a0 = d0 + s;
    let a1 = a0 + d1 + s;
    let a2 = a1 + d2 + s;
    let a3 = a2 + d3 + s;
    let a4 = a3 + d4 + s;
    let body = d0 + s + d1 + s + d2 + s + d3 + s + d4 + s + p;
    // Re-associate the left-nested concatenation into the right-nested chain.
    vstd::seq_lib::lemma_concat_associative(a3, d4, s);
    vstd::seq_lib::lemma_concat_associative(a3, d4 + s, p);
    assert(body == a3 + r4);
    vstd::seq_lib::lemma_concat_associative(a2, d3, s);
    vstd::seq_lib::lemma_concat_associative(a2, d3 + s, r4);
    assert(body == a2 + r3);
    vstd::seq_lib::lemma_concat_associative(a1, d2, s);
    vstd::seq_lib::lemma_concat_associative(a1, d2 + s, r3);
    assert(body == a1 + r2);
    vstd::seq_lib::lemma_concat_associative(a0, d1, s);
    vstd::seq_lib::lemma_concat_associative(a0, d1 + s, r2);
    assert(body == d0 + s + r1);
    lemma_split_join_chain(d0, d1, d2, d3, d4, payload);
}

/// Render a frame line from its six fields.
pub fn render_fields_line(
    node_id: u8,
    child_sensor_id: u8,
    command: u8,
    ack: u8,
    sub_type: u8,
    payload: &str,
) -> (r: String)
    ensures
        r@ == render_fields(node_id, child_sensor_id, command, ack, sub_type, payload@),
{
    let mut out = String::new();
    append_dec_u8(&mut out, node_id);
    push_char(&mut out, ';');
    append_dec_u8(&mut out, child_sensor_id);
    push_char(&mut out, ';');
    append_dec_u8(&mut out, command);
    push_char(&mut out, ';');
    append_dec_u8(&mut out, ack);
    push_char(&mut out, ';');
    append_dec_u8(&mut out, sub_type);
    push_char(&mut out, ';');
    out.append(payload);
    push_char(&mut out, '\n');
    proof {
        assert(out@ =~= render_fields(
            node_id,
            child_sensor_id,
            command,
            ack,
            sub_type,
            payload@,
        ));
    }
    out
}

} // verus!
