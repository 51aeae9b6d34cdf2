//! Store identifiers: twelve bytes, written as twenty-four hexadecimal digits.

use vstd::prelude::*;

verus! {

/// Number of bytes in a store identifier.
pub const ID_BYTES: usize = 12;

/// Number of hexadecimal digits in the text form of a store identifier.
pub const ID_HEX_DIGITS: usize = 24;

/// Whether `c` is one of `0-9`, `a-f`, `A-F`.
pub open spec fn is_hex_digit(c: char) -> bool {
    ||| '0' <= c <= '9'
    ||| 'a' <= c <= 'f'
    ||| 'A' <= c <= 'F'
}

/// The number, `0` to `15`, that the hexadecimal digit `c` stands for.
pub open spec fn hex_value(c: char) -> int {
    if '0' <= c <= '9' {
        c as int - '0' as int
    } else if 'a' <= c <= 'f' {
        c as int - 'a' as int + 10
    } else {
        c as int - 'A' as int + 10
    }
}

/// The lower-case hexadecimal digit for `n`, `0 <= n < 16`.
pub open spec fn hex_digit(n: int) -> char {
    if n < 10 {
        ((n + '0' as int) as u8) as char
    } else {
        ((n - 10 + 'a' as int) as u8) as char
    }
}

/// Whether `text` is the text form of some identifier: exactly twenty-four
/// hexadecimal digits, in either case.
pub open spec fn is_id_text(text: Seq<char>) -> bool {
    &&& text.len() == ID_HEX_DIGITS
    &&& forall|i: int| 0 <= i < text.len() ==> is_hex_digit(#[trigger] text[i])
}

/// The bytes that a text of hexadecimal digits stands for, two digits to a
/// byte, the high digit first.
pub open spec fn bytes_of_hex(text: Seq<char>) -> Seq<u8> {
    Seq::new(text.len() / 2, |i: int| (16 * hex_value(text[2 * i]) + hex_value(text[2 * i + 1])) as u8)
}

/// The lower-case hexadecimal text of `bytes`, two digits to a byte, the
/// high digit first.
pub open spec fn hex_of_bytes(bytes: Seq<u8>) -> Seq<char> {
    Seq::new(
        2 * bytes.len(),
        |i: int| if i % 2 == 0 { hex_digit(bytes[i / 2] as int / 16) } else { hex_digit(bytes[i / 2] as int % 16) },
    )
}

/// Why a text was refused as an identifier.
#[derive(Clone, Copy, Debug, PartialEq, Eq, Structural)]
pub enum IdError {
    /// The text is not twenty-four hexadecimal digits.
    Malformed,
}

/// The identifier that the store gives a record.
#[derive(Clone, Copy, Debug, PartialEq, Eq, Hash)]
pub struct StoreId {
    bytes: [u8; 12],
}

impl View for StoreId {
    type V = Seq<u8>;

    closed spec fn view(&self) -> Seq<u8> {
        self.bytes@
    }
}

/// The error of `ObjectId::parse_str`, carried through and never looked
/// into.
#[verifier::external_type_specification]
#[verifier::external_body]
pub struct ExOidError(mongodb::bson::oid::Error);

/// `ObjectId::parse_str` followed by `ObjectId::bytes`. The outside function
/// decodes the text with `hex::decode` and accepts it exactly when twelve
/// bytes come out; a digit pair gives the byte `16 * high + low`.
#[verifier::external_body]
fn oid_parse(text: &str) -> (r: Result<[u8; 12], mongodb::bson::oid::Error>)
    ensures
        r is Ok <==> is_id_text(text@),
        r matches Ok(bytes) ==> bytes@ == bytes_of_hex(text@),
{
    match mongodb::bson::oid::ObjectId::parse_str(text) {
        Ok(id) => Ok(id.bytes()),
        Err(e) => Err(e),
    }
}

/// `ObjectId::from_bytes` followed by `ObjectId::to_hex`, which is
/// `hex::encode`: two lower-case digits per byte, the high digit first.
#[verifier::external_body]
fn oid_to_hex(bytes: [u8; 12]) -> (text: String)
    ensures
        text@ == hex_of_bytes(bytes@),
{
    mongodb::bson::oid::ObjectId::from_bytes(bytes).to_hex()
}

impl StoreId {
    /// The identifier with the given bytes.
    pub fn from_bytes(bytes: [u8; 12]) -> (id: StoreId)
        ensures
            id@ == bytes@,
    {
        StoreId { bytes }
    }

    /// The twelve bytes of the identifier.
    pub fn bytes(&self) -> (bytes: [u8; 12])
        ensures
            bytes@ == self@,
    {
        self.bytes
    }

    /// Reads an identifier from its text form. Anything but twenty-four
    /// hexadecimal digits is refused.
    pub fn parse_str(text: &str) -> (r: Result<StoreId, IdError>)
        ensures
            match r {
                Ok(id) => is_id_text(text@) && id@ == bytes_of_hex(text@),
                Err(e) => !is_id_text(text@) && e == IdError::Malformed,
            },
    {
        match oid_parse(text) {
            Ok(bytes) => Ok(StoreId { bytes }),
            Err(_) => Err(IdError::Malformed),
        }
    }

    /// The text form of the identifier, in lower case.
    pub fn to_hex(&self) -> (text: String)
        ensures
            text@ == hex_of_bytes(self@),
    {
        oid_to_hex(self.bytes)
    }
}

/// Writing an identifier as text and reading the text again gives the
/// identifier back: the text of twelve bytes is an identifier text, and its
/// bytes are the twelve that were written.
pub proof fn lemma_text_round_trip(bytes: Seq<u8>)
    requires
        bytes.len() == ID_BYTES,
    ensures
        is_id_text(hex_of_bytes(bytes)),
        bytes_of_hex(hex_of_bytes(bytes)) == bytes,
{
    let text = hex_of_bytes(bytes);
    assert forall|n: int| 0 <= n < 16 implies is_hex_digit(#[trigger] hex_digit(n)) && hex_value(
        hex_digit(n),
    ) == n by {}
    assert forall|i: int| 0 <= i < text.len() implies is_hex_digit(#[trigger] text[i]) by {
        let b = bytes[i / 2] as int;
        assert(0 <= b / 16 < 16 && 0 <= b % 16 < 16);
    }
    assert forall|k: int| 0 <= k < bytes.len() implies #[trigger] bytes_of_hex(text)[k]
        == bytes[k] by {
        let b = bytes[k] as int;
        assert(0 <= b / 16 < 16 && 0 <= b % 16 < 16);
        assert((2 * k) / 2 == k && (2 * k + 1) / 2 == k);
        assert((2 * k) % 2 == 0 && (2 * k + 1) % 2 == 1);
        assert(text[2 * k] == hex_digit(b / 16));
        assert(text[2 * k + 1] == hex_digit(b % 16));
        assert(16 * (b / 16) + b % 16 == b);
    }
    assert(bytes_of_hex(text) =~= bytes);
}

} // verus!
