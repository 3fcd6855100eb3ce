//! The identity of a machine.

use crate::text;
use vstd::prelude::*;

verus! {

/// The identity of a machine: a random number, written as a UUID.
#[derive(Debug, Clone, Copy, PartialEq, Eq, Hash, PartialOrd, Ord, Structural)]
pub struct DeviceId(pub u128);

/// The text of a UUID: its hexadecimal digits in groups of 8, 4, 4, 4 and 12,
/// with hyphens between.
pub open spec fn uuid_text(n: u128) -> Seq<char> {
    let h = text::hex(n as nat, 32);
    h.subrange(0, 8).push('-') + h.subrange(8, 12).push('-') + h.subrange(12, 16).push('-')
        + h.subrange(16, 20).push('-') + h.subrange(20, 32)
}

/// The number that `uuid::Uuid::parse_str` reads from a text; none where it
/// fails.
pub uninterp spec fn parsed_uuid(s: Seq<char>) -> Option<u128>;

/// `uuid::Uuid::new_v4` makes a random UUID. Its version is 4 and its variant
/// that of the standard; the other bits are left to chance.
#[verifier::external_body]
fn random_uuid() -> (r: u128)
    ensures
        (r as nat / 0x1000_0000_0000_0000_0000) % 16 == 4,
        (r as nat / 0x4000_0000_0000_0000) % 4 == 2,
{
    uuid::Uuid::new_v4().as_u128()
}

/// `Display` of `uuid::Uuid` writes the hyphenated lower-case form, and
/// `uuid::Uuid::parse_str` reads that form back.
#[verifier::external_body]
fn format_uuid(n: u128) -> (r: String)
    ensures
        r@ == uuid_text(n),
        parsed_uuid(r@) == Some(n),
{
    uuid::Uuid::from_u128(n).to_string()
}

/// `uuid::Uuid::parse_str` reads the plain, hyphenated, braced and URN forms,
/// in either case.
#[verifier::external_body]
fn parse_uuid(s: &str) -> (r: Option<u128>)
    ensures
        r == parsed_uuid(s@),
{
    match uuid::Uuid::parse_str(s) {
        Ok(u) => Some(u.as_u128()),
        Err(_) => None,
    }
}

impl DeviceId {
    /// Whether the number is that of a random UUID, by its version and variant.
    pub open spec fn is_random(self) -> bool {
        &&& (self.0 as nat / 0x1000_0000_0000_0000_0000) % 16 == 4
        &&& (self.0 as nat / 0x4000_0000_0000_0000) % 4 == 2
    }

    /// A fresh identity.
    pub fn new() -> (r: Self)
        ensures
            r.is_random(),
    {
        DeviceId(random_uuid())
    }

    /// The identity of no machine.
    pub fn nil() -> (r: Self)
        ensures
            r == DeviceId(0),
    {
        DeviceId(0)
    }

    /// The identity as text, 36 characters long. It is read back as it was.
    pub fn to_text(&self) -> (r: String)
        ensures
            r@ == uuid_text(self.0),
            r@.len() == 36,
            parsed_uuid(r@) == Some(self.0),
    {
        proof {
            text::lemma_hex_len(self.0 as nat, 32);
        }
        format_uuid(self.0)
    }

    /// Reads an identity.
    pub fn parse(s: &str) -> (r: Option<DeviceId>)
        ensures
            match r {
                Some(id) => parsed_uuid(s@) == Some(id.0),
                None => parsed_uuid(s@) is None,
            },
    {
        device_of(parse_uuid(s))
    }
}

/// The identity that a UUID stands for.
pub fn device_of(parsed: Option<u128>) -> (r: Option<DeviceId>)
    ensures
        r == match parsed {
            Some(n) => Some(DeviceId(n)),
            None => None,
        },
{
    match parsed {
        Some(n) => Some(DeviceId(n)),
        None => None,
    }
}

} // verus!
