//! Identifiers of notes and reminders.
//!
//! An identifier is the eight bytes of a `tinyid::TinyId`, held here as the big-endian
//! `u64` that `TinyId::to_u64` gives. The all-zero value is the null identifier.
use vstd::prelude::*;

verus! {

/// Byte `i` (0 is the first, most significant) of the eight bytes of `raw`.
pub open spec fn id_byte(raw: u64, i: int) -> u8 {
    ((raw as int / vstd::arithmetic::power2::pow2((8 * (7 - i)) as nat) as int) % 256) as u8
}

/// Whether a byte is one of the letters identifiers are made of: `-`, digits, upper and
/// lower case letters and `_`.
pub open spec fn is_valid_id_byte(b: u8) -> bool {
    b == 45 || (48 <= b <= 57) || (65 <= b <= 90) || b == 95 || (97 <= b <= 122)
}

/// Whether an identifier is valid: not null and made of valid letters only.
pub open spec fn is_valid_id(raw: u64) -> bool {
    raw != 0 && forall|i: int| 0 <= i < 8 ==> #[trigger] is_valid_id_byte(id_byte(raw, i))
}

/// The text that `tinyid::TinyId` shows for an identifier: each of its eight bytes as the
/// character with that code.
pub open spec fn tinyid_text(raw: u64) -> Seq<char> {
    Seq::new(8, |i: int| id_byte(raw, i) as char)
}

/// Whether a text is the text of a valid identifier: eight characters, each a valid
/// letter.
pub open spec fn is_id_text(text: Seq<char>) -> bool {
    &&& text.len() == 8
    &&& forall|i: int|
        0 <= i < 8 ==> (text[i] as u32) < 256 && #[trigger] is_valid_id_byte(text[i] as u8)
}

/// Calls `tinyid::TinyId::random`. Claimed: the identifier is valid, as its source
/// builds each of the eight bytes from the table of valid letters. Which identifier comes
/// back depends on a random number and is not stated.
#[verifier::external_body]
fn tinyid_random() -> (raw: u64)
    ensures
        is_valid_id(raw),
{
    ::tinyid::TinyId::random().to_u64()
}

/// Calls `tinyid::TinyId::is_valid` on the identifier with the given bytes. Claimed: it
/// answers `is_valid_id`, which its source states: not null and every byte a valid letter.
#[verifier::external_body]
fn tinyid_is_valid(raw: u64) -> (b: bool)
    ensures
        b == is_valid_id(raw),
{
    ::tinyid::TinyId::from_u64_unchecked(raw).is_valid()
}

/// Parses a text with `tinyid::TinyId`'s `FromStr` and returns the bytes of the
/// identifier. Claimed, as its source shows (eight bytes, each character converted to a
/// byte that must be a valid letter): it succeeds exactly on the texts of `is_id_text`,
/// and the identifier that comes back is valid and shows as the text.
#[verifier::external_body]
fn tinyid_parse(text: &str) -> (r: Option<u64>)
    ensures
        r is Some <==> is_id_text(text@),
        r matches Some(raw) ==> is_valid_id(raw) && tinyid_text(raw) == text@,
{
    match text.parse::<::tinyid::TinyId>() {
        Ok(t) => Some(t.to_u64()),
        Err(_) => None,
    }
}

/// Calls `to_string` on the `tinyid::TinyId` with the given bytes. Claimed: the text is
/// `tinyid_text`, as its `Display` writes each byte as a character.
#[verifier::external_body]
fn tinyid_to_string(raw: u64) -> (s: String)
    ensures
        s@ == tinyid_text(raw),
{
    ::tinyid::TinyId::from_u64_unchecked(raw).to_string()
}

/// An identifier.
#[derive(Clone, Copy, Debug, PartialEq, Eq, Structural, PartialOrd, Ord, Hash)]
pub struct Id {
    raw: u64,
}

impl View for Id {
    type V = u64;

    closed spec fn view(&self) -> u64 {
        self.raw
    }
}

/// The identifier with the given bytes.
pub closed spec fn id_of(raw: u64) -> Id {
    Id { raw }
}

/// Identifiers are equal exactly when their bytes are, and `id_of` builds the identifier
/// with the given bytes.
pub broadcast proof fn lemma_id_view(a: Id, b: Id, raw: u64)
    ensures
        #[trigger] (a@) == #[trigger] (b@) <==> a == b,
        (#[trigger] id_of(raw))@ == raw,
{
}

impl Id {
    /// A new random identifier; it is valid.
    pub fn random() -> (id: Id)
        ensures
            is_valid_id(id@),
    {
        Id { raw: tinyid_random() }
    }

    /// The null identifier.
    pub fn null() -> (id: Id)
        ensures
            id@ == 0,
    {
        Id { raw: 0 }
    }

    /// Whether this is the null identifier.
    pub fn is_null(&self) -> (b: bool)
        ensures
            b == (self@ == 0),
    {
        self.raw == 0
    }

    /// Whether this identifier is valid: not null and made of valid letters.
    pub fn is_valid(&self) -> (b: bool)
        ensures
            b == is_valid_id(self@),
    {
        tinyid_is_valid(self.raw)
    }

    /// Makes this the null identifier.
    pub fn make_null(&mut self)
        ensures
            final(self)@ == 0,
    {
        self.raw = 0;
    }

    /// The identifier with the given bytes (read big-endian), not checked.
    pub fn from_u64_unchecked(raw: u64) -> (id: Id)
        ensures
            id@ == raw,
    {
        Id { raw }
    }

    /// The identifier with the given bytes (read big-endian), if it is valid.
    pub fn from_u64(raw: u64) -> (r: Option<Id>)
        ensures
            r is Some <==> is_valid_id(raw),
            r matches Some(id) ==> id@ == raw,
    {
        if tinyid_is_valid(raw) {
            Some(Id { raw })
        } else {
            None
        }
    }

    /// The bytes of this identifier, read big-endian.
    pub fn to_u64(&self) -> (raw: u64)
        ensures
            raw == self@,
    {
        self.raw
    }

    /// Whether two identifiers are the same.
    pub fn same_as(&self, other: &Id) -> (b: bool)
        ensures
            b == (self@ == other@),
    {
        self.raw == other.raw
    }

    /// The text of this identifier.
    pub fn to_text(&self) -> (s: String)
        ensures
            s@ == tinyid_text(self@),
    {
        tinyid_to_string(self.raw)
    }

    /// The identifier a text names: `Some` exactly when the text is eight valid letters,
    /// and then the identifier whose text it is.
    pub fn parse(text: &str) -> (r: Option<Id>)
        ensures
            r is Some <==> is_id_text(text@),
            r matches Some(id) ==> is_valid_id(id@) && tinyid_text(id@) == text@,
    {
        match tinyid_parse(text) {
            Some(raw) => Some(Id { raw }),
            None => None,
        }
    }
}

} // verus!
