//! Hexadecimal codec for the beacon value: a 64-character hex string denotes
//! the 32-byte seed of the ceremony's deterministic generator.

use vstd::prelude::*;

verus! {

/// The sixteen hexadecimal digit characters, in either case.
pub open spec fn is_hex_digit(c: char) -> bool {
    ('0' <= c && c <= '9') || ('a' <= c && c <= 'f') || ('A' <= c && c <= 'F')
}

/// Numeric value of a hexadecimal digit character.
pub open spec fn hex_digit_value(c: char) -> u8
    recommends
        is_hex_digit(c),
{
    if '0' <= c && c <= '9' {
        (c as u8 - '0' as u8) as u8
    } else if 'a' <= c && c <= 'f' {
        (c as u8 - 'a' as u8 + 10) as u8
    } else {
        (c as u8 - 'A' as u8 + 10) as u8
    }
}

/// Canonical lower-case digit character of a value below sixteen.
pub open spec fn hex_char(v: u8) -> char
    recommends
        v < 16,
{
    if v < 10 {
        ((v + '0' as u8) as u8) as char
    } else {
        ((v - 10 + 'a' as u8) as u8) as char
    }
}

/// A well-formed hexadecimal string: even length, hex digits only.
pub open spec fn is_hex_string(s: Seq<char>) -> bool {
    s.len() % 2 == 0 && (forall|i: int| 0 <= i < s.len() ==> is_hex_digit(#[trigger] s[i]))
}

/// The byte sequence a hexadecimal string denotes: one byte for each pair of
/// digits, high digit first.
pub open spec fn decoded_hex(s: Seq<char>) -> Seq<u8>
    recommends
        is_hex_string(s),
    decreases s.len(),
{
    if s.len() < 2 {
        Seq::empty()
    } else {
        decoded_hex(s.take(s.len() - 2)).push(
            (hex_digit_value(s[s.len() - 2]) * 16 + hex_digit_value(s[s.len() - 1])) as u8,
        )
    }
}

/// Lower-case hexadecimal rendering of a byte sequence, two digits a byte.
pub open spec fn encoded_hex(b: Seq<u8>) -> Seq<char>
    decreases b.len(),
{
    if b.len() == 0 {
        Seq::empty()
    } else {
        encoded_hex(b.take(b.len() - 1)) + seq![
            hex_char(b[b.len() - 1] / 16),
            hex_char(b[b.len() - 1] % 16),
        ]
    }
}

/// Each digit of a hexadecimal string replaced by its canonical lower-case form.
pub open spec fn lower_hex(s: Seq<char>) -> Seq<char> {
    Seq::new(s.len(), |i: int| hex_char(hex_digit_value(s[i])))
}

pub proof fn lemma_hex_digit_value_bound(c: char)
    requires
        is_hex_digit(c),
    ensures
        hex_digit_value(c) < 16,
{
}

pub proof fn lemma_decoded_hex_len(s: Seq<char>)
    ensures
        decoded_hex(s).len() == s.len() / 2,
    decreases s.len(),
{
    if s.len() >= 2 {
        lemma_decoded_hex_len(s.take(s.len() - 2));
    }
}

pub proof fn lemma_encoded_hex_len(b: Seq<u8>)
    ensures
        encoded_hex(b).len() == 2 * b.len(),
    decreases b.len(),
{
    if b.len() > 0 {
        lemma_encoded_hex_len(b.take(b.len() - 1));
    }
}

pub proof fn lemma_hex_char_value(v: u8)
    requires
        v < 16,
    ensures
        is_hex_digit(hex_char(v)),
        hex_digit_value(hex_char(v)) == v,
{
}

/// Decoding then re-encoding a well-formed hexadecimal string gives back the
/// same string, with each digit in its canonical lower-case form.
pub proof fn lemma_hex_round_trip(s: Seq<char>)
    requires
        is_hex_string(s),
    ensures
        encoded_hex(decoded_hex(s)) =~= lower_hex(s),
    decreases s.len(),
{
    if s.len() < 2 {
        assert(encoded_hex(decoded_hex(s)) =~= lower_hex(s));
    } else {
        let s0 = s.take(s.len() - 2);
        assert(is_hex_string(s0));
        lemma_hex_round_trip(s0);
        let a = hex_digit_value(s[s.len() - 2]);
        let b = hex_digit_value(s[s.len() - 1]);
        lemma_hex_digit_value_bound(s[s.len() - 2]);
        lemma_hex_digit_value_bound(s[s.len() - 1]);
        let v = (a * 16 + b) as u8;
        assert(v == a * 16 + b);
        assert(v / 16 == a && v % 16 == b) by (nonlinear_arith)
            requires
                a < 16,
                b < 16,
                v == a * 16 + b,
        ;
        let d = decoded_hex(s);
        assert(d == decoded_hex(s0).push(v));
        assert(d.take(d.len() - 1) =~= decoded_hex(s0));
        assert(encoded_hex(d) =~= encoded_hex(decoded_hex(s0)) + seq![hex_char(a), hex_char(b)]);
    }
}

/// A well-formed hexadecimal string with no upper-case digit is its own
/// canonical form: decoding and re-encoding gives it back unchanged.
pub proof fn lemma_hex_round_trip_lower(s: Seq<char>)
    requires
        is_hex_string(s),
        forall|i: int| 0 <= i < s.len() ==> !('A' <= #[trigger] s[i] && s[i] <= 'F'),
    ensures
        encoded_hex(decoded_hex(s)) =~= s,
{
    lemma_hex_round_trip(s);
    assert forall|i: int| 0 <= i < s.len() implies lower_hex(s)[i] == s[i] by {
        assert(is_hex_digit(s[i]));
    }
    assert(lower_hex(s) =~= s);
}

/// Encoding a byte sequence yields a well-formed hexadecimal string that
/// decodes back to the same bytes.
pub proof fn lemma_hex_decode_encode(b: Seq<u8>)
    ensures
        is_hex_string(encoded_hex(b)),
        decoded_hex(encoded_hex(b)) =~= b,
    decreases b.len(),
{
    lemma_encoded_hex_len(b);
    if b.len() == 0 {
    } else {
        let b0 = b.take(b.len() - 1);
        lemma_hex_decode_encode(b0);
        lemma_encoded_hex_len(b0);
        let last = b[b.len() - 1];
        let hi = (last / 16) as u8;
        let lo = (last % 16) as u8;
        assert(hi < 16 && lo < 16);
        lemma_hex_char_value(hi);
        lemma_hex_char_value(lo);
        let e = encoded_hex(b);
        assert(e == encoded_hex(b0) + seq![hex_char(hi), hex_char(lo)]);
        assert forall|i: int| 0 <= i < e.len() implies is_hex_digit(#[trigger] e[i]) by {
            if i < e.len() - 2 {
                assert(e[i] == encoded_hex(b0)[i]);
            }
        }
        assert(e.take(e.len() - 2) =~= encoded_hex(b0));
        assert(hex_digit_value(e[e.len() - 2]) * 16 + hex_digit_value(e[e.len() - 1])
            == hi * 16 + lo);
        assert(hi * 16 + lo == last) by (nonlinear_arith)
            requires
                hi == last / 16,
                lo == last % 16,
        ;
        assert(decoded_hex(e) =~= b);
    }
}

/// Numeric value of one hexadecimal digit character.
fn hex_digit(c: char) -> (v: u8)
    requires
        is_hex_digit(c),
    ensures
        v == hex_digit_value(c),
        v < 16,
{
    if '0' <= c && c <= '9' {
        c as u8 - '0' as u8
    } else if 'a' <= c && c <= 'f' {
        c as u8 - 'a' as u8 + 10
    } else {
        c as u8 - 'A' as u8 + 10
    }
}

/// Decode a hexadecimal string into the bytes it denotes.
pub fn decode_hex(s: &str) -> (r: Vec<u8>)
    requires
        is_hex_string(s@),
    ensures
        r@ == decoded_hex(s@),
        r@.len() == s@.len() / 2,
{
    let len = s.unicode_len();
    let mut r: Vec<u8> = Vec::new();
    let mut i: usize = 0;
    while i < len
        invariant
            is_hex_string(s@),
            len == s@.len(),
            i <= len,
            i % 2 == 0,
            r@ == decoded_hex(s@.take(i as int)),
        decreases len - i,
    {
        let hi = s.get_char(i);
        let lo = s.get_char(i + 1);
        let v = hex_digit(hi) * 16 + hex_digit(lo);
        r.push(v);
        proof {
            assert(s@.take(i + 2).take(i as int) =~= s@.take(i as int));
            assert(r@ =~= decoded_hex(s@.take(i + 2)));
        }
        i = i + 2;
    }
    proof {
        assert(s@.take(len as int) =~= s@);
        lemma_decoded_hex_len(s@);
    }
    r
}

/// Check that a string is well-formed hexadecimal: even length, digits only.
pub fn is_hex_str(s: &str) -> (b: bool)
    ensures
        b == is_hex_string(s@),
{
    let len = s.unicode_len();
    if len % 2 != 0 {
        return false;
    }
    let mut i: usize = 0;
    while i < len
        invariant
            len == s@.len(),
            i <= len,
            forall|j: int| 0 <= j < i ==> is_hex_digit(#[trigger] s@[j]),
        decreases len - i,
    {
        let c = s.get_char(i);
        let ok = ('0' <= c && c <= '9') || ('a' <= c && c <= 'f') || ('A' <= c && c <= 'F');
        if !ok {
            return false;
        }
        i = i + 1;
    }
    true
}

/// The lower-case digit character of a value below sixteen, as a string slice.
fn hex_char_str(v: u8) -> (r: &'static str)
    requires
        v < 16,
    ensures
        r@ == seq![hex_char(v)],
{
    proof {
        reveal_strlit("0");
        reveal_strlit("1");
        reveal_strlit("2");
        reveal_strlit("3");
        reveal_strlit("4");
        reveal_strlit("5");
        reveal_strlit("6");
        reveal_strlit("7");
        reveal_strlit("8");
        reveal_strlit("9");
        reveal_strlit("a");
        reveal_strlit("b");
        reveal_strlit("c");
        reveal_strlit("d");
        reveal_strlit("e");
        reveal_strlit("f");
    }
    if v == 0 {
        "0"
    } else if v == 1 {
        "1"
    } else if v == 2 {
        "2"
    } else if v == 3 {
        "3"
    } else if v == 4 {
        "4"
    } else if v == 5 {
        "5"
    } else if v == 6 {
        "6"
    } else if v == 7 {
        "7"
    } else if v == 8 {
        "8"
    } else if v == 9 {
        "9"
    } else if v == 10 {
        "a"
    } else if v == 11 {
        "b"
    } else if v == 12 {
        "c"
    } else if v == 13 {
        "d"
    } else if v == 14 {
        "e"
    } else {
        "f"
    }
}

/// Render bytes as lower-case hexadecimal, two digits a byte.
pub fn encode_hex(b: &[u8]) -> (r: String)
    ensures
        r@ == encoded_hex(b@),
{
    let mut r = String::new();
    let mut i: usize = 0;
    while i < b.len()
        invariant
            i <= b@.len(),
            r@ =~= encoded_hex(b@.take(i as int)),
        decreases b@.len() - i,
    {
        let byte = b[i];
        r.append(hex_char_str(byte / 16));
        r.append(hex_char_str(byte % 16));
        proof {
            assert(b@.take(i + 1).take(i as int) =~= b@.take(i as int));
            assert(r@ =~= encoded_hex(b@.take(i + 1)));
        }
        i = i + 1;
    }
    proof {
        assert(b@.take(b@.len() as int) =~= b@);
    }
    r
}

} // verus!
