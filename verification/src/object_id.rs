use vstd::prelude::*;

verus! {

/// A document identifier: twelve raw bytes, shown to the outside world as a
/// 24-digit lowercase hexadecimal string.
#[derive(Debug)]
pub struct ObjectId {
    bytes: Vec<u8>,
}

impl View for ObjectId {
    type V = Seq<u8>;

    closed spec fn view(&self) -> Seq<u8> {
        self.bytes@
    }
}

/// True for the characters that hexadecimal notation accepts, in either case.
pub open spec fn is_hex_digit(c: char) -> bool {
    ||| '0' <= c && c <= '9'
    ||| 'a' <= c && c <= 'f'
    ||| 'A' <= c && c <= 'F'
}

/// The numeric value of a hexadecimal digit.
pub open spec fn hex_digit_value(c: char) -> u8
    recommends
        is_hex_digit(c),
{
    if '0' <= c && c <= '9' {
        (c as u32 - 48) as u8
    } else if 'a' <= c && c <= 'f' {
        (c as u32 - 87) as u8
    } else {
        (c as u32 - 55) as u8
    }
}

/// A string that an identifier can be read from: exactly 24 hexadecimal digits.
pub open spec fn is_oid_hex(s: Seq<char>) -> bool {
    s.len() == 24 && forall|i: int| 0 <= i < s.len() ==> is_hex_digit(#[trigger] s[i])
}

/// The twelve bytes that a 24-digit hexadecimal string denotes.
pub open spec fn parsed_oid(s: Seq<char>) -> Seq<u8>
    recommends
        is_oid_hex(s),
{
    Seq::new(12, |i: int| (16 * hex_digit_value(s[2 * i]) + hex_digit_value(s[2 * i + 1])) as u8)
}

/// The ASCII code of the lowercase hexadecimal digit for a value below 16.
pub open spec fn hex_digit_byte(v: u8) -> u8
    recommends
        v < 16,
{
    if v < 10 {
        (48 + v) as u8
    } else {
        (87 + v) as u8
    }
}

/// The lowercase hexadecimal digit for a value below 16.
pub open spec fn hex_digit_char(v: u8) -> char
    recommends
        v < 16,
{
    hex_digit_byte(v) as char
}

/// The lowercase hexadecimal rendering of a byte sequence, two digits a byte.
pub open spec fn oid_hex(b: Seq<u8>) -> Seq<char> {
    Seq::new(
        2 * b.len(),
        |i: int|
            if i % 2 == 0 {
                hex_digit_char((b[i / 2] / 16) as u8)
            } else {
                hex_digit_char((b[i / 2] % 16) as u8)
            },
    )
}

impl ObjectId {
    /// An identifier is well formed when it holds exactly twelve bytes.
    pub open spec fn wf(&self) -> bool {
        self@.len() == 12
    }

    /// Builds an identifier from its twelve raw bytes.
    pub fn from_bytes(bytes: Vec<u8>) -> (r: ObjectId)
        requires
            bytes@.len() == 12,
        ensures
            r@ == bytes@,
            r.wf(),
    {
        ObjectId { bytes }
    }

    /// Renders the identifier as its 24-digit lowercase hexadecimal string.
    pub fn to_hex(&self) -> (r: String)
        requires
            self.wf(),
        ensures
            r@ == oid_hex(self@),
            r@.len() == 24,
    {
        let mut v: Vec<u8> = Vec::new();
        let mut i: usize = 0;
        while i < 12
            invariant
                self@.len() == 12,
                i <= 12,
                v@.len() == 2 * i,
                forall|j: int|
                    0 <= j < v@.len() ==> #[trigger] v@[j] < 128 && v@[j] as char == oid_hex(
                        self@,
                    )[j],
            decreases 12 - i,
        {
            let b = self.bytes[i];
            let hi = hex_byte(b / 16);
            let lo = hex_byte(b % 16);
            v.push(hi);
            v.push(lo);
            proof {
                assert(2 * (i + 1) % 2 == 0);
                assert((2 * i + 1) % 2 == 1);
                assert((2 * i + 1) / 2 == i);
                assert(2 * i / 2 == i);
            }
            i = i + 1;
        }
        let r = ascii_to_string(v);
        proof {
            assert(r@ =~= oid_hex(self@));
        }
        r
    }
}

/// The lowercase hexadecimal digit, as an ASCII byte, of a value below 16.
fn hex_byte(v: u8) -> (r: u8)
    requires
        v < 16,
    ensures
        r == hex_digit_byte(v),
        r < 128,
{
    if v < 10 {
        48 + v
    } else {
        87 + v
    }
}

/// Relies on `String::from_utf8`: bytes below 128 are one-byte UTF-8 code
/// points, so they decode to exactly the corresponding characters.
#[verifier::external_body]
pub(crate) fn ascii_to_string(v: Vec<u8>) -> (r: String)
    requires
        forall|i: int| 0 <= i < v@.len() ==> v@[i] < 128,
    ensures
        r@ == v@.map_values(|b: u8| b as char),
{
    String::from_utf8(v).unwrap_or_default()
}

/// The numeric value of a hexadecimal digit character, if it is one.
fn hex_val(c: char) -> (r: Option<u8>)
    ensures
        r is Some <==> is_hex_digit(c),
        r matches Some(v) ==> v == hex_digit_value(c) && v < 16,
{
    let u = c as u32;
    if 48 <= u && u <= 57 {
        Some((u - 48) as u8)
    } else if 97 <= u && u <= 102 {
        Some((u - 87) as u8)
    } else if 65 <= u && u <= 70 {
        Some((u - 55) as u8)
    } else {
        None
    }
}

/// Reads an identifier from a string: succeeds exactly on 24 hexadecimal
/// digits, upper or lower case, and returns the twelve bytes they denote.
pub fn string_id_to_obj_id(id: &str) -> (r: Option<ObjectId>)
    ensures
        r is Some <==> is_oid_hex(id@),
        r matches Some(oid) ==> oid.wf() && oid@ == parsed_oid(id@),
{
    let n = id.unicode_len();
    if n != 24 {
        return None;
    }
    let mut bytes: Vec<u8> = Vec::new();
    let mut i: usize = 0;
    while i < 12
        invariant
            id@.len() == 24,
            i <= 12,
            bytes@.len() == i,
            forall|j: int| 0 <= j < 2 * i ==> is_hex_digit(#[trigger] id@[j]),
            forall|j: int|
                0 <= j < i ==> #[trigger] bytes@[j] == (16 * hex_digit_value(id@[2 * j])
                    + hex_digit_value(id@[2 * j + 1])) as u8,
        decreases 12 - i,
    {
        let c1 = id.get_char(2 * i);
        let c2 = id.get_char(2 * i + 1);
        let v1 = match hex_val(c1) {
            Some(v) => v,
            None => {
                return None;
            },
        };
        let v2 = match hex_val(c2) {
            Some(v) => v,
            None => {
                return None;
            },
        };
        bytes.push(16 * v1 + v2);
        i = i + 1;
    }
    let oid = ObjectId { bytes };
    proof {
        assert(oid@ =~= parsed_oid(id@));
    }
    Some(oid)
}

impl Clone for ObjectId {
    /// A clone carries the same twelve bytes.
    fn clone(&self) -> (r: Self)
        ensures
            r@ == self@,
    {
        ObjectId { bytes: self.bytes.clone() }
    }
}

/// Reading back the hexadecimal rendering of any twelve bytes returns exactly
/// those bytes.
pub proof fn lemma_oid_hex_round_trip(b: Seq<u8>)
    requires
        b.len() == 12,
    ensures
        is_oid_hex(oid_hex(b)),
        parsed_oid(oid_hex(b)) == b,
{
    assert forall|i: int| 0 <= i < 24 implies is_hex_digit(#[trigger] oid_hex(b)[i]) by {
        if i % 2 == 0 {
            lemma_hex_digit_char_value((b[i / 2] / 16) as u8);
        } else {
            lemma_hex_digit_char_value((b[i / 2] % 16) as u8);
        }
    }
    assert forall|i: int| 0 <= i < 12 implies #[trigger] parsed_oid(oid_hex(b))[i] == b[i] by {
        assert(2 * i % 2 == 0);
        assert((2 * i + 1) % 2 == 1);
        assert((2 * i + 1) / 2 == i);
        assert(2 * i / 2 == i);
        lemma_hex_digit_char_value((b[i] / 16) as u8);
        lemma_hex_digit_char_value((b[i] % 16) as u8);
        assert(16 * (b[i] / 16) + b[i] % 16 == b[i]);
    }
    assert(parsed_oid(oid_hex(b)) =~= b);
}

/// Rendering the bytes read from a lowercase hexadecimal string returns
/// exactly that string; uppercase digits come back lowercase instead.
pub proof fn lemma_oid_parse_round_trip(s: Seq<char>)
    requires
        is_oid_hex(s),
        forall|i: int| 0 <= i < s.len() ==> !('A' <= #[trigger] s[i] && s[i] <= 'F'),
    ensures
        oid_hex(parsed_oid(s)) == s,
{
    assert forall|i: int| 0 <= i < 24 implies #[trigger] oid_hex(parsed_oid(s))[i] == s[i] by {
        let k = i / 2;
        let v1 = hex_digit_value(s[2 * k]);
        let v2 = hex_digit_value(s[2 * k + 1]);
        assert(v1 < 16 && v2 < 16) by {
            lemma_hex_value_bound(s[2 * k]);
            lemma_hex_value_bound(s[2 * k + 1]);
        }
        let byte = parsed_oid(s)[k];
        assert(byte == 16 * v1 + v2);
        assert(byte / 16 == v1 && byte % 16 == v2) by {
            vstd::arithmetic::div_mod::lemma_fundamental_div_mod_converse(
                byte as int,
                16,
                v1 as int,
                v2 as int,
            );
        }
        lemma_lower_hex_char_round_trip(s[2 * k]);
        lemma_lower_hex_char_round_trip(s[2 * k + 1]);
        if i % 2 == 0 {
            assert(2 * k == i);
        } else {
            assert(2 * k + 1 == i);
        }
    }
    assert(oid_hex(parsed_oid(s)) =~= s);
}

/// The digit character of a value below 16 is a hexadecimal digit and reads
/// back as that value.
proof fn lemma_hex_digit_char_value(v: u8)
    requires
        v < 16,
    ensures
        is_hex_digit(hex_digit_char(v)),
        hex_digit_value(hex_digit_char(v)) == v,
{
}

/// A hexadecimal digit's value lies below 16.
proof fn lemma_hex_value_bound(c: char)
    requires
        is_hex_digit(c),
    ensures
        hex_digit_value(c) < 16,
{
}

/// A digit or lowercase hexadecimal character is the digit character of its
/// own value.
proof fn lemma_lower_hex_char_round_trip(c: char)
    requires
        is_hex_digit(c),
        !('A' <= c && c <= 'F'),
    ensures
        hex_digit_char(hex_digit_value(c)) == c,
{
}

} // verus!

