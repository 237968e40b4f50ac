//! Document identifiers: twelve bytes, written at the boundary as twenty-four
//! hexadecimal digits.

use mongodb::bson::oid::ObjectId;
use vstd::prelude::*;

verus! {

/// Number of bytes in an identifier.
pub const ID_BYTES: usize = 12;

/// Number of hexadecimal digits in the text form of an identifier.
pub const ID_HEX_DIGITS: usize = 24;

/// True for the characters `0-9`, `a-f` and `A-F`.
pub open spec fn is_hex_digit(c: char) -> bool {
    ('0' <= c && c <= '9') || ('a' <= c && c <= 'f') || ('A' <= c && c <= 'F')
}

/// The number that a hexadecimal digit stands for; 0 for any other character.
pub open spec fn hex_value(c: char) -> int {
    if '0' <= c && c <= '9' {
        c as int - '0' as int
    } else if 'a' <= c && c <= 'f' {
        c as int - 'a' as int + 10
    } else if 'A' <= c && c <= 'F' {
        c as int - 'A' as int + 10
    } else {
        0
    }
}

/// The lower-case hexadecimal digit for a number below sixteen.
pub open spec fn hex_digit(v: int) -> char {
    if 0 <= v && v < 10 {
        (v + '0' as int) as char
    } else {
        (v - 10 + 'a' as int) as char
    }
}

/// A text is the written form of an identifier when it is made of exactly
/// twenty-four hexadecimal digits.
pub open spec fn is_id_text(s: Seq<char>) -> bool {
    s.len() == ID_HEX_DIGITS && forall|i: int| 0 <= i < s.len() ==> is_hex_digit(#[trigger] s[i])
}

/// The bytes that a text of hexadecimal digits stands for, two digits to a
/// byte, the high half first.
pub open spec fn hex_decode(s: Seq<char>) -> Seq<u8> {
    Seq::new(s.len() / 2, |i: int| (hex_value(s[2 * i]) * 16 + hex_value(s[2 * i + 1])) as u8)
}

/// The lower-case hexadecimal text of a sequence of bytes.
pub open spec fn hex_encode(b: Seq<u8>) -> Seq<char> {
    Seq::new(
        2 * b.len(),
        |i: int|
            if i % 2 == 0 {
                hex_digit(b[i / 2] as int / 16)
            } else {
                hex_digit(b[i / 2] as int % 16)
            },
    )
}

/// The identifier that a text stands for, if it stands for one.
pub open spec fn parsed_id(s: Seq<char>) -> Option<Seq<u8>> {
    if is_id_text(s) {
        Some(hex_decode(s))
    } else {
        None
    }
}

/// Encoding bytes as hexadecimal text and decoding that text gives the bytes back.
pub proof fn lemma_hex_round_trip(b: Seq<u8>)
    ensures
        hex_encode(b).len() == 2 * b.len(),
        forall|i: int| 0 <= i < hex_encode(b).len() ==> is_hex_digit(#[trigger] hex_encode(b)[i]),
        hex_decode(hex_encode(b)) == b,
{
    let t = hex_encode(b);
    assert forall|i: int| 0 <= i < t.len() implies is_hex_digit(#[trigger] t[i]) by {
        let v: int = if i % 2 == 0 { b[i / 2] as int / 16 } else { b[i / 2] as int % 16 };
        assert(0 <= v < 16);
        assert(t[i] == hex_digit(v));
    }
    assert forall|k: int| 0 <= k < b.len() implies #[trigger] hex_decode(t)[k] == b[k] by {
        let hi: int = b[k] as int / 16;
        let lo: int = b[k] as int % 16;
        assert((2 * k) % 2 == 0 && (2 * k) / 2 == k && (2 * k + 1) % 2 == 1 && (2 * k + 1) / 2
            == k);
        assert(t[2 * k] == hex_digit(hi));
        assert(t[2 * k + 1] == hex_digit(lo));
        assert(hex_value(hex_digit(hi)) == hi);
        assert(hex_value(hex_digit(lo)) == lo);
        assert(hi * 16 + lo == b[k] as int);
    }
    assert(hex_decode(t) =~= b);
}

/// The identifier of a stored document.
#[derive(Clone, Copy, Debug, PartialEq, Eq)]
pub struct RecipeId {
    pub bytes: [u8; ID_BYTES],
}

impl View for RecipeId {
    type V = Seq<u8>;

    open spec fn view(&self) -> Seq<u8> {
        self.bytes@
    }
}

/// The value of an optional identifier.
pub open spec fn id_view(id: Option<RecipeId>) -> Option<Seq<u8>> {
    match id {
        Some(r) => Some(r@),
        None => None,
    }
}

/// Calls `ObjectId::parse_str` and hands out the bytes of the identifier it
/// made. The call succeeds exactly on twenty-four hexadecimal digits of either
/// case, and each byte is made of two digits, the high half first.
#[verifier::external_body]
fn parse_object_id(text: &str) -> (parsed: Option<[u8; ID_BYTES]>)
    ensures
        parsed.is_some() == is_id_text(text@),
        parsed matches Some(bytes) ==> bytes@ == hex_decode(text@),
{
    match ObjectId::parse_str(text) {
        Ok(oid) => Some(oid.bytes()),
        Err(_) => None,
    }
}

/// Calls `ObjectId::to_hex` on the identifier made of `bytes`: two lower-case
/// hexadecimal digits for each byte, in order.
#[verifier::external_body]
fn object_id_hex(bytes: [u8; ID_BYTES]) -> (text: String)
    ensures
        text@ == hex_encode(bytes@),
{
    ObjectId::from_bytes(bytes).to_hex()
}

impl RecipeId {
    /// Reads an identifier from its text form; `None` for any text that is not
    /// twenty-four hexadecimal digits.
    pub fn parse_str(text: &str) -> (id: Option<RecipeId>)
        ensures
            id.is_some() == is_id_text(text@),
            id matches Some(r) ==> r@ == hex_decode(text@),
            id_view(id) == parsed_id(text@),
    {
        match parse_object_id(text) {
            Some(bytes) => Some(RecipeId { bytes }),
            None => None,
        }
    }

    /// The text form of the identifier: twenty-four lower-case hexadecimal digits.
    pub fn to_hex(&self) -> (text: String)
        ensures
            text@ == hex_encode(self@),
            parsed_id(text@) == Some(self@),
    {
        proof {
            lemma_hex_round_trip(self@);
        }
        object_id_hex(self.bytes)
    }

    /// Whether two identifiers are the same twelve bytes.
    pub fn same(&self, other: &RecipeId) -> (equal: bool)
        ensures
            equal == (self@ == other@),
    {
        let mut i: usize = 0;
        while i < ID_BYTES
            invariant
                i <= ID_BYTES,
                forall|k: int| 0 <= k < i ==> self.bytes@[k] == other.bytes@[k],
            decreases ID_BYTES - i,
        {
            if self.bytes[i] != other.bytes[i] {
                return false;
            }
            i = i + 1;
        }
        assert(self@ =~= other@);
        true
    }
}

} // verus!
