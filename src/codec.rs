//! Conversion between a document identifier and its 24-digit hexadecimal text.

use vstd::prelude::*;

verus! {

/// Number of bytes in a document identifier.
pub const ID_LEN: usize = 12;

/// A document identifier: the twelve bytes of the store's native object id.
#[derive(Clone, Copy, Debug)]
pub struct DocId {
    pub bytes: [u8; 12],
}

impl View for DocId {
    type V = Seq<u8>;

    open spec fn view(&self) -> Seq<u8> {
        self.bytes@
    }
}

/// Whether `c` is a hexadecimal digit, in either case.
pub open spec fn is_hex_digit(c: char) -> bool {
    ('0' <= c && c <= '9') || ('a' <= c && c <= 'f') || ('A' <= c && c <= 'F')
}

/// The value of a hexadecimal digit.
pub open spec fn hex_value(c: char) -> int {
    if '0' <= c && c <= '9' {
        (c as int) - ('0' as int)
    } else if 'a' <= c && c <= 'f' {
        (c as int) - ('a' as int) + 10
    } else {
        (c as int) - ('A' as int) + 10
    }
}

/// The lower-case hexadecimal digit for a value below 16.
pub open spec fn hex_char(v: int) -> char {
    if v < 10 {
        ((v + ('0' as int)) as u32) as char
    } else {
        ((v - 10 + ('a' as int)) as u32) as char
    }
}

/// Whether `s` is the text of an identifier: exactly 24 hexadecimal digits.
pub open spec fn is_id_text(s: Seq<char>) -> bool {
    s.len() == 2 * ID_LEN && forall|i: int| 0 <= i < s.len() ==> #[trigger] is_hex_digit(s[i])
}

/// The bytes that identifier text denotes: each pair of digits gives one byte,
/// the first digit being the high half.
pub open spec fn id_of_text(s: Seq<char>) -> Seq<u8> {
    Seq::new(ID_LEN as nat, |i: int| (16 * hex_value(s[2 * i]) + hex_value(s[2 * i + 1])) as u8)
}

/// The lower-case hexadecimal text of a byte sequence, two digits per byte.
pub open spec fn hex_text(b: Seq<u8>) -> Seq<char> {
    Seq::new(
        2 * b.len(),
        |i: int|
            if i % 2 == 0 {
                hex_char(b[i / 2] as int / 16)
            } else {
                hex_char(b[i / 2] as int % 16)
            },
    )
}

/// Relies on bson's `ObjectId::parse_str`, which decodes the text with
/// `hex::decode` (digits of either case, two per byte, high half first) and
/// accepts it only when that yields exactly twelve bytes.
#[verifier::external_body]
fn parse_object_id(s: &str) -> (r: Option<[u8; 12]>)
    ensures
        r.is_some() == is_id_text(s@),
        r.is_some() ==> r.unwrap()@ == id_of_text(s@),
{
    bson::oid::ObjectId::parse_str(s).ok().map(|o| o.bytes())
}

/// Relies on bson's `ObjectId::to_hex`, which is `hex::encode` of the twelve
/// bytes: lower-case digits, two per byte, high half first.
#[verifier::external_body]
fn object_id_hex(b: [u8; 12]) -> (r: String)
    ensures
        r@ == hex_text(b@),
{
    bson::oid::ObjectId::from_bytes(b).to_hex()
}

/// Relies on bson's `ObjectId::new`, which draws a fresh identifier from the
/// clock, a per-process random value and a counter; nothing is promised of it.
#[verifier::external_body]
pub(crate) fn fresh_object_id() -> (r: DocId) {
    DocId { bytes: bson::oid::ObjectId::new().bytes() }
}

/// Decodes identifier text; `None` when it is not 24 hexadecimal digits.
pub fn decode_id(s: &str) -> (r: Option<DocId>)
    ensures
        r.is_some() <==> is_id_text(s@),
        r.is_some() ==> r.unwrap()@ == id_of_text(s@),
{
    match parse_object_id(s) {
        Some(bytes) => Some(DocId { bytes }),
        None => None,
    }
}

/// The lower-case hexadecimal text of an identifier.
pub fn encode_id(id: &DocId) -> (r: String)
    ensures
        r@ == hex_text(id@),
{
    object_id_hex(id.bytes)
}

/// Whether two identifiers hold the same bytes.
pub fn same_id(a: &DocId, b: &DocId) -> (r: bool)
    ensures
        r == (a@ == b@),
{
    let mut i: usize = 0;
    while i < ID_LEN
        invariant
            0 <= i <= ID_LEN,
            a@.len() == ID_LEN,
            b@.len() == ID_LEN,
            forall|j: int| 0 <= j < i ==> a@[j] == b@[j],
        decreases ID_LEN - i,
    {
        if a.bytes[i] != b.bytes[i] {
            return false;
        }
        i = i + 1;
    }
    assert(a@ =~= b@);
    true
}

proof fn lemma_hex_digit_round_trip(v: int)
    requires
        0 <= v < 16,
    ensures
        is_hex_digit(hex_char(v)),
        hex_value(hex_char(v)) == v,
        hex_char(v) as int == if v < 10 { v + 48 } else { v + 87 },
{
}

/// Encoding an identifier and decoding the text gives the identifier back.
pub proof fn lemma_id_text_round_trip(b: Seq<u8>)
    requires
        b.len() == ID_LEN,
    ensures
        is_id_text(hex_text(b)),
        id_of_text(hex_text(b)) == b,
{
    let t = hex_text(b);
    assert forall|i: int| 0 <= i < t.len() implies #[trigger] is_hex_digit(t[i]) by {
        if i % 2 == 0 {
            lemma_hex_digit_round_trip(b[i / 2] as int / 16);
        } else {
            lemma_hex_digit_round_trip(b[i / 2] as int % 16);
        }
    }
    assert forall|i: int| 0 <= i < ID_LEN implies #[trigger] id_of_text(t)[i] == b[i] by {
        let x = b[i] as int;
        assert((2 * i) / 2 == i && (2 * i) % 2 == 0);
        assert((2 * i + 1) / 2 == i && (2 * i + 1) % 2 == 1);
        lemma_hex_digit_round_trip(x / 16);
        lemma_hex_digit_round_trip(x % 16);
        assert(16 * (x / 16) + x % 16 == x);
    }
    assert(id_of_text(t) =~= b);
}

} // verus!
