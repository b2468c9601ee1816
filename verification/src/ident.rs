//! Identifiers of entities: 128-bit values, written as text in the
//! hyphenated form of a UUID.

use vstd::prelude::*;

verus! {

/// The identifier of a user, a task, a project or any other entity.
#[derive(Clone, Copy, Debug, PartialEq, Eq, Hash, Structural)]
pub struct EntityId(pub u128);

/// The error of the `uuid` crate's parser.
#[verifier::external_type_specification]
#[verifier::external_body]
pub struct ExUuidError(uuid::Error);

/// The bits that mark a value as a random (version 4) identifier of the
/// standard variant.
pub open spec fn is_random_v4(value: u128) -> bool {
    value & 0x0000_0000_0000_f000_c000_0000_0000_0000u128
        == 0x0000_0000_0000_4000_8000_0000_0000_0000u128
}

/// The hyphenated lower-case text of an identifier, as the `uuid` crate
/// formats it.
pub uninterp spec fn uuid_text(value: u128) -> Seq<char>;

/// The identifier that the `uuid` crate's parser reads from a text, if it
/// accepts the text.
pub uninterp spec fn uuid_value(text: Seq<char>) -> Option<u128>;

/// Draws a fresh identifier with `uuid::Uuid::new_v4`.
///
/// Which value comes back is left open; every outcome carries the version
/// and variant bits that `new_v4` sets. The `uuid` crate stops the program
/// if the operating system gives no random bytes.
#[verifier::external_body]
pub(crate) fn random_id() -> (id: EntityId)
    ensures
        is_random_v4(id.0),
{
    EntityId(uuid::Uuid::new_v4().as_u128())
}

/// Formats through `uuid::Uuid::hyphenated`. The text depends on the value
/// alone, and the crate's parser reads the same value back from it.
#[verifier::external_body]
fn format_uuid(value: u128) -> (s: String)
    ensures
        s@ == uuid_text(value),
        uuid_value(s@) == Some(value),
{
    uuid::Uuid::from_u128(value).hyphenated().to_string()
}

/// Parses through `uuid::Uuid::parse_str`. Whether the text is accepted, and
/// as which value, depends on the text alone.
#[verifier::external_body]
fn parse_uuid(text: &str) -> (r: Result<u128, uuid::Error>)
    ensures
        match r {
            Ok(v) => uuid_value(text@) == Some(v),
            Err(_) => uuid_value(text@) is None,
        },
{
    Ok(uuid::Uuid::parse_str(text)?.as_u128())
}

impl EntityId {
    /// The identifier that a text stands for, if it stands for one.
    pub open spec fn from_text(text: Seq<char>) -> Option<EntityId> {
        match uuid_value(text) {
            Some(v) => Some(EntityId(v)),
            None => None,
        }
    }

    /// The text of this identifier.
    pub fn to_text(&self) -> (s: String)
        ensures
            s@ == uuid_text(self.0),
            EntityId::from_text(s@) == Some(*self),
    {
        format_uuid(self.0)
    }

    /// Reads an identifier from its text; `None` where the text is not one.
    pub fn parse(text: &str) -> (r: Option<EntityId>)
        ensures
            r == EntityId::from_text(text@),
    {
        match parse_uuid(text) {
            Ok(v) => Some(EntityId(v)),
            Err(_) => None,
        }
    }
}

} // verus!
