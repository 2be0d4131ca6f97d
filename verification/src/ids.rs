//! Resource identifiers and plan selectors.
use crate::text::{owned, str_eq};
use vstd::prelude::*;

verus! {

#[verifier::external_type_specification]
#[verifier::external_body]
pub struct ExUuidError(uuid::Error);

/// A resource identifier: the 128 bits of a UUID.
#[derive(Clone, Copy, Debug, PartialEq, Eq, Hash, PartialOrd, Ord, Structural)]
pub struct Uuid(pub u128);

/// The hexadecimal digit `d` (0 to 15) as a lower-case character.
pub open spec fn hex_char(d: int) -> char {
    if d < 10 {
        (48 + d) as char
    } else {
        (87 + d) as char
    }
}

/// The last `count` hexadecimal digits of `value`, most significant first.
pub open spec fn hex_digits(value: nat, count: nat) -> Seq<char>
    decreases count,
{
    if count == 0 {
        Seq::empty()
    } else {
        hex_digits(value / 16, (count - 1) as nat).push(hex_char((value % 16) as int))
    }
}

/// The hyphenated lower-case text that the `uuid` crate writes for these 128 bits: 32
/// hexadecimal digits, most significant first, in groups of 8, 4, 4, 4 and 12.
pub open spec fn uuid_text(value: u128) -> Seq<char> {
    let digits = hex_digits(value as nat, 32);
    digits.subrange(0, 8) + seq!['-'] + digits.subrange(8, 12) + seq!['-'] + digits.subrange(
        12,
        16,
    ) + seq!['-'] + digits.subrange(16, 20) + seq!['-'] + digits.subrange(20, 32)
}

/// What `uuid::Uuid::parse_str` makes of a text: its 128 bits, or nothing where the text
/// is refused.
pub uninterp spec fn uuid_parsed(text: Seq<char>) -> Option<u128>;

/// Calls `uuid::Uuid::from_u128(value).to_string()`: `from_u128` takes the bits
/// big-endian and `Display` writes the hyphenated lower-case form. Trusted: the text is
/// the one `uuid_text` describes, 36 characters long, and `parse_str` reads it back to
/// the same bits.
#[verifier::external_body]
fn format_uuid(value: u128) -> (result: String)
    ensures
        result@ == uuid_text(value),
        result@.len() == 36,
        uuid_parsed(result@) == Some(value),
{
    uuid::Uuid::from_u128(value).to_string()
}

/// Calls `uuid::Uuid::parse_str`, which reads the simple, hyphenated, braced and URN
/// forms. Trusted: the bits are those named by `uuid_parsed`, and an error comes exactly
/// where that name gives nothing.
#[verifier::external_body]
fn parse_uuid(text: &str) -> (result: Result<Uuid, uuid::Error>)
    ensures
        match result {
            Ok(id) => uuid_parsed(text@) == Some(id.0),
            Err(_) => uuid_parsed(text@) is None,
        },
{
    match uuid::Uuid::parse_str(text) {
        Ok(id) => Ok(Uuid(id.as_u128())),
        Err(error) => Err(error),
    }
}

impl Uuid {
    /// The hyphenated lower-case text of the identifier.
    pub fn to_string(&self) -> (result: String)
        ensures
            result@ == uuid_text(self.0),
            result@.len() == 36,
    {
        format_uuid(self.0)
    }

    /// Reads a UUID in any of the forms the `uuid` crate accepts.
    pub fn parse_str(text: &str) -> (result: Result<Uuid, uuid::Error>)
        ensures
            match result {
                Ok(id) => uuid_parsed(text@) == Some(id.0),
                Err(_) => uuid_parsed(text@) is None,
            },
    {
        parse_uuid(text)
    }
}

/// Which plan a request is about: one by identifier, or one the API resolves.
#[derive(Clone, Copy, Debug, PartialEq, Eq, Hash, Structural)]
pub enum PlanId {
    Id(Uuid),
    LastUsed,
    Default,
}

/// The text a plan selector is written as in paths and on the command line.
pub open spec fn plan_text(plan: PlanId) -> Seq<char> {
    match plan {
        PlanId::Id(id) => uuid_text(id.0),
        PlanId::LastUsed => "last-used"@,
        PlanId::Default => "default"@,
    }
}

/// How a text reads as a plan selector: the two keywords, else a UUID.
pub open spec fn plan_parsed(text: Seq<char>) -> Option<PlanId> {
    if text == "last-used"@ {
        Some(PlanId::LastUsed)
    } else if text == "default"@ {
        Some(PlanId::Default)
    } else {
        match uuid_parsed(text) {
            Some(bits) => Some(PlanId::Id(Uuid(bits))),
            None => None,
        }
    }
}

impl PlanId {
    /// The selector's text. Read back, it gives the same selector.
    pub fn to_string(&self) -> (result: String)
        ensures
            result@ == plan_text(*self),
            plan_parsed(result@) == Some(*self),
    {
        proof {
            reveal_strlit("last-used");
            reveal_strlit("default");
        }
        match self {
            PlanId::Id(id) => {
                let text = format_uuid(id.0);
                assert(text@ != "last-used"@);
                assert(text@ != "default"@);
                text
            },
            PlanId::LastUsed => owned("last-used"),
            PlanId::Default => owned("default"),
        }
    }

    pub fn from_str(value: &str) -> (result: Result<PlanId, uuid::Error>)
        ensures
            match plan_parsed(value@) {
                Some(plan) => result == Ok::<PlanId, uuid::Error>(plan),
                None => result is Err,
            },
    {
        if str_eq(value, "last-used") {
            Ok(PlanId::LastUsed)
        } else if str_eq(value, "default") {
            Ok(PlanId::Default)
        } else {
            match parse_uuid(value) {
                Ok(id) => Ok(PlanId::Id(id)),
                Err(error) => Err(error),
            }
        }
    }
}

} // verus!
