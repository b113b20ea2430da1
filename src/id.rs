//! Identifiers typed by the kind of entity they name.
use core::cmp::Ordering;
use core::marker::PhantomData;
use vstd::prelude::*;

use crate::error::Error;
use crate::text::{canonical_text, lemma_canonical_text_value, text_value};

verus! {

/// The version field of a 128-bit identifier: bits 76 to 79.
pub open spec fn version_of(v: u128) -> u128 {
    (v >> 76u128) & 0xfu128
}

/// The variant field's two high bits: bits 62 and 63.
pub open spec fn variant_bits_of(v: u128) -> u128 {
    (v >> 62u128) & 0x3u128
}

/// The leading 48 bits, which a time-ordered identifier fills with the Unix
/// time of its creation in milliseconds.
pub open spec fn millis_of(v: u128) -> u128 {
    v >> 80u128
}

/// Version 7, the time-ordered version, with the standard variant.
pub open spec fn is_time_ordered_value(v: u128) -> bool {
    version_of(v) == 7 && variant_bits_of(v) == 2
}

/// Relies on `Display` for `uuid::Uuid`: the lowercase hyphenated form.
#[verifier::external_body]
fn uuid_text(v: u128) -> (r: String)
    ensures
        r@ == canonical_text(v),
{
    uuid::Uuid::from_u128(v).to_string()
}

/// Relies on `uuid::Uuid::parse_str`: it accepts the simple, hyphenated,
/// braced and URN forms, with digits of either case, and nothing else.
#[verifier::external_body]
fn parse_uuid(s: &str) -> (r: Option<u128>)
    ensures
        r == text_value(s@),
{
    match uuid::Uuid::parse_str(s) {
        Ok(u) => Some(u.as_u128()),
        Err(_) => None,
    }
}

/// Relies on `uuid::Uuid::now_v7`: a version 7 value of the standard variant,
/// from the system clock and random bits.
#[verifier::external_body]
fn new_time_ordered() -> (r: u128)
    ensures
        is_time_ordered_value(r),
{
    uuid::Uuid::now_v7().as_u128()
}

/// Relies on `uuid::Uuid::get_timestamp` and `uuid::Timestamp::to_unix`: for
/// version 7 they give the leading 48 bits as Unix milliseconds, split into
/// seconds and nanoseconds.
#[verifier::external_body]
fn embedded_unix_time(v: u128) -> (r: Option<(u64, u32)>)
    requires
        version_of(v) == 7,
    ensures
        r == Some(((millis_of(v) / 1000) as u64, ((millis_of(v) % 1000) * 1_000_000) as u32)),
{
    match uuid::Uuid::from_u128(v).get_timestamp() {
        Some(t) => Some(t.to_unix()),
        None => None,
    }
}

/// A point in time as seconds and nanoseconds since the Unix epoch.
#[derive(Debug, Clone, Copy, PartialEq, Eq, Structural)]
pub struct UnixTime {
    pub seconds: u64,
    pub subsec_nanos: u32,
}

impl UnixTime {
    /// The same point in milliseconds since the Unix epoch.
    pub open spec fn millis(&self) -> nat {
        (self.seconds * 1000 + self.subsec_nanos / 1_000_000) as nat
    }
}

/// An identifier for entities of kind `T`.
///
/// At run time it is a 128-bit value; `T` exists only for the type checker,
/// so that identifiers of different entity kinds cannot be mixed up.
pub struct Id<T> {
    value: u128,
    kind: PhantomData<T>,
}

impl<T> View for Id<T> {
    type V = u128;

    closed spec fn view(&self) -> u128 {
        self.value
    }
}

impl<T> Id<T> {
    /// Whether the identifier is a time-ordered one (version 7, standard
    /// variant), as every generated identifier is.
    pub open spec fn is_time_ordered(&self) -> bool {
        is_time_ordered_value(self@)
    }

    /// A fresh time-ordered identifier from the system clock and random bits.
    pub fn generate() -> (r: Self)
        ensures
            r.is_time_ordered(),
    {
        Id { value: new_time_ordered(), kind: PhantomData }
    }

    /// Reads an identifier from its text: 32 hexadecimal digits, plain, in
    /// hyphenated groups, in braces or after `urn:uuid:`. Any version is
    /// accepted.
    pub fn parse(s: &str) -> (r: Result<Self, Error>)
        ensures
            match text_value(s@) {
                Some(v) => r is Ok && r->Ok_0@ == v,
                None => r is Err && r->Err_0 is InvalidFormat,
            },
    {
        match parse_uuid(s) {
            Some(v) => Ok(Id { value: v, kind: PhantomData }),
            None => Err(Error::InvalidFormat),
        }
    }

    /// The canonical text: lowercase hexadecimal digits grouped 8-4-4-4-12.
    pub fn to_text(&self) -> (r: String)
        ensures
            r@ == canonical_text(self@),
    {
        uuid_text(self.value)
    }

    /// The creation time that a version 7 identifier carries.
    pub fn timestamp(&self) -> (r: Result<UnixTime, Error>)
        ensures
            version_of(self@) == 7 ==> r is Ok && r->Ok_0.millis() == millis_of(self@)
                && r->Ok_0.subsec_nanos < 1_000_000_000,
            version_of(self@) != 7 ==> r is Err && r->Err_0 is MissingTimestamp,
    {
        if (self.value >> 76u128) & 0xfu128 != 7 {
            return Err(Error::MissingTimestamp);
        }
        let v = self.value;
        assert(v >> 80u128 < 0x1_0000_0000_0000u128) by (bit_vector);
        let ghost m = millis_of(v) as int;
        assert((m / 1000) * 1000 + ((m % 1000) * 1_000_000) / 1_000_000 == m) by (nonlinear_arith);
        assert((m % 1000) * 1_000_000 < 1_000_000_000) by (nonlinear_arith);
        match embedded_unix_time(v) {
            Some((seconds, subsec_nanos)) => Ok(UnixTime { seconds, subsec_nanos }),
            None => Err(Error::MissingTimestamp),
        }
    }

    /// The identifier whose 128-bit value is `v`.
    pub(crate) fn from_value(v: u128) -> (r: Self)
        ensures
            r@ == v,
    {
        Id { value: v, kind: PhantomData }
    }

    /// The identifier's 128-bit value.
    pub(crate) fn value(&self) -> (r: u128)
        ensures
            r == self@,
    {
        self.value
    }

    /// Orders two identifiers by their 128-bit values.
    pub fn compare(&self, other: &Self) -> (r: Ordering)
        ensures
            (r == Ordering::Less) == (self@ < other@),
            (r == Ordering::Equal) == (self@ == other@),
            (r == Ordering::Greater) == (self@ > other@),
    {
        if self.value < other.value {
            Ordering::Less
        } else if self.value == other.value {
            Ordering::Equal
        } else {
            Ordering::Greater
        }
    }
}

impl<T> PartialEq for Id<T> {
    fn eq(&self, other: &Self) -> (r: bool) {
        self.value == other.value
    }
}

impl<T> vstd::std_specs::cmp::PartialEqSpecImpl for Id<T> {
    open spec fn obeys_eq_spec() -> bool {
        true
    }

    open spec fn eq_spec(&self, other: &Self) -> bool {
        self@ == other@
    }
}

impl<T> Eq for Id<T> {

}

impl<T> PartialOrd for Id<T> {
    fn partial_cmp(&self, other: &Self) -> (r: Option<Ordering>) {
        Some(self.compare(other))
    }
}

impl<T> vstd::std_specs::cmp::PartialOrdSpecImpl for Id<T> {
    open spec fn obeys_partial_cmp_spec() -> bool {
        true
    }

    open spec fn partial_cmp_spec(&self, other: &Self) -> Option<Ordering> {
        if self@ < other@ {
            Some(Ordering::Less)
        } else if self@ == other@ {
            Some(Ordering::Equal)
        } else {
            Some(Ordering::Greater)
        }
    }
}

impl<T> core::str::FromStr for Id<T> {
    type Err = Error;

    fn from_str(s: &str) -> Result<Self, Error> {
        Self::parse(s)
    }
}

/// Writing an identifier as text and reading it back gives the same
/// identifier.
pub proof fn lemma_parse_to_text<T>(x: Id<T>)
    ensures
        text_value(canonical_text(x@)) == Some(x@),
{
    lemma_canonical_text_value(x@);
}

/// Identifiers are ordered by the time they carry first: one whose leading
/// 48 bits hold an earlier millisecond comes before the other.
pub proof fn lemma_earlier_millis_orders_first<T>(a: Id<T>, b: Id<T>)
    requires
        millis_of(a@) < millis_of(b@),
    ensures
        a@ < b@,
{
    let x = a@;
    let y = b@;
    assert((x >> 80u128) < (y >> 80u128) ==> x < y) by (bit_vector);
}

} // verus!
