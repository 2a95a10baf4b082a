//! Report identifiers as they appear in a request path.

use vstd::prelude::*;

verus! {

/// `uuid::Error`, which tells why a text is no UUID. The library hands it on
/// and looks at nothing inside it.
#[verifier::external_type_specification]
#[verifier::external_body]
pub struct ExUuidError(uuid::Error);

/// The 128-bit value that `uuid::Uuid::parse_str` reads from a text, or
/// nothing where the text is no UUID.
pub uninterp spec fn uuid_parsed(text: Seq<char>) -> Option<u128>;

/// Calls `uuid::Uuid::parse_str` and takes the value with `Uuid::as_u128`.
/// The outcome depends on the text alone; the contract names it.
#[verifier::external_body]
pub(crate) fn parse_uuid(text: &str) -> (out: Result<u128, uuid::Error>)
    ensures
        match out {
            Ok(value) => uuid_parsed(text@) == Some(value),
            Err(_) => uuid_parsed(text@) is None,
        },
{
    Ok(uuid::Uuid::parse_str(text)?.as_u128())
}

/// The text that `uuid::Uuid` shows for a value: lowercase hexadecimal in
/// five groups, with hyphens between them.
pub uninterp spec fn uuid_text(value: u128) -> Seq<char>;

/// Makes the identifier with `uuid::Uuid::from_u128` and writes it with its
/// `Display`. The contract names the text.
#[verifier::external_body]
pub(crate) fn format_uuid(value: u128) -> (text: String)
    ensures
        text@ == uuid_text(value),
{
    uuid::Uuid::from_u128(value).to_string()
}

/// Whether a value has the form of a random identifier: of its 128 bits, the
/// four that tell the version say 4, and the two that tell the variant say
/// 2. The other 122 bits are free.
pub open spec fn is_random_uuid(value: u128) -> bool {
    (value >> 76) & 0xf == 4 && (value >> 62) & 0x3 == 2
}

/// Calls `uuid::Uuid::new_v4`, which draws 128 random bits and then sets the
/// version to 4 and the variant to 2. That much holds of every outcome; which
/// value is drawn is left open.
#[verifier::external_body]
pub(crate) fn random_uuid() -> (value: u128)
    ensures
        is_random_uuid(value),
{
    uuid::Uuid::new_v4().as_u128()
}

/// The identifier of a report, read from a path segment.
#[derive(Clone, Copy, Debug, PartialEq, Eq, Structural)]
pub struct UuidWrapper(pub u128);

impl UuidWrapper {
    /// Reads an identifier from a path segment.
    pub fn from_param(param: &str) -> (out: Result<UuidWrapper, uuid::Error>)
        ensures
            match out {
                Ok(id) => uuid_parsed(param@) == Some(id.0),
                Err(_) => uuid_parsed(param@) is None,
            },
    {
        match parse_uuid(param) {
            Ok(value) => Ok(UuidWrapper(value)),
            Err(e) => Err(e),
        }
    }

    /// The 128-bit value of the identifier.
    pub fn into(self) -> (value: u128)
        ensures
            value == self.0,
    {
        self.0
    }

    /// A fresh random identifier. Which one is left to chance; that it has
    /// the form of a random identifier is certain.
    pub fn generate() -> (id: UuidWrapper)
        ensures
            is_random_uuid(id.0),
    {
        UuidWrapper(random_uuid())
    }

    /// The identifier in the form in which it names a file.
    pub fn to_text(&self) -> (text: String)
        ensures
            text@ == uuid_text(self.0),
    {
        format_uuid(self.0)
    }
}

} // verus!
