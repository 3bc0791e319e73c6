//! The calls this library makes into other crates, and the words their
//! contracts are written in. The contract of each call is believed, not
//! proved: it restates what the other crate's source shows.

use vstd::prelude::*;

verus! {

/// `time::OffsetDateTime`, a point in time with the offset it is shown in. The
/// library stores and hands back such values and never looks inside them.
#[verifier::external_type_specification]
#[verifier::external_body]
pub struct ExOffsetDateTime(time::OffsetDateTime);

/// Largest magnitude of the integer part of a `rust_decimal::Decimal`: 96 bits.
pub const MAX_MANTISSA: i128 = 0x0000_0000_FFFF_FFFF_FFFF_FFFF_FFFF_FFFF;

/// Largest number of fractional digits of a `rust_decimal::Decimal`.
pub const MAX_SCALE: u32 = 28;

/// Whether `mantissa / 10^scale` is a value that `rust_decimal::Decimal` holds.
pub open spec fn decimal_holds(mantissa: i128, scale: u32) -> bool {
    -MAX_MANTISSA <= mantissa <= MAX_MANTISSA && scale <= MAX_SCALE
}

/// The text that `uuid::Uuid` displays for the identifier with this 128-bit
/// value: 32 lower-case hexadecimal digits in groups of 8, 4, 4, 4 and 12,
/// separated by hyphens.
pub uninterp spec fn uuid_text(id: u128) -> Seq<char>;

/// The text that `rust_decimal::Decimal` displays for `mantissa / 10^scale`.
pub uninterp spec fn decimal_text(mantissa: i128, scale: u32) -> Seq<char>;

/// Whether the identifier with this 128-bit value is marked as a random one:
/// its version is 4 and its variant is the RFC one.
pub open spec fn is_random_uuid(id: u128) -> bool {
    id & 0x0000_0000_0000_F000_C000_0000_0000_0000 == 0x0000_0000_0000_4000_8000_0000_0000_0000
}

/// `uuid::Uuid::new_v4`, read as its 128-bit value by `Uuid::as_u128`. The
/// value is random but for six bits, which mark it as a random identifier. The
/// call aborts if the operating system cannot supply random bytes.
#[verifier::external_body]
pub(crate) fn fresh_id() -> (id: u128)
    ensures
        is_random_uuid(id),
{
    uuid::Uuid::new_v4().as_u128()
}

/// `Display` of `uuid::Uuid`, for the identifier built by `Uuid::from_u128`.
#[verifier::external_body]
pub(crate) fn id_to_text(id: u128) -> (text: String)
    ensures
        text@ == uuid_text(id),
{
    uuid::Uuid::from_u128(id).to_string()
}

/// `time::OffsetDateTime::now_utc`: the system clock's reading. Nothing is
/// claimed of the value.
pub assume_specification[ time::OffsetDateTime::now_utc ]() -> (now: time::OffsetDateTime);

/// `<=` of `rust_decimal::Decimal` against `Decimal::ZERO`, for the decimal
/// built by `Decimal::from_i128_with_scale`. A decimal is at most zero exactly
/// when its mantissa is; the scale plays no part.
#[verifier::external_body]
pub(crate) fn decimal_at_most_zero(mantissa: i128, scale: u32) -> (at_most: bool)
    requires
        decimal_holds(mantissa, scale),
    ensures
        at_most == (mantissa <= 0),
{
    rust_decimal::Decimal::from_i128_with_scale(mantissa, scale) <= rust_decimal::Decimal::ZERO
}

/// `Display` of `rust_decimal::Decimal`, for the decimal built by
/// `Decimal::from_i128_with_scale`.
#[verifier::external_body]
pub(crate) fn decimal_to_text(mantissa: i128, scale: u32) -> (text: String)
    requires
        decimal_holds(mantissa, scale),
    ensures
        text@ == decimal_text(mantissa, scale),
{
    rust_decimal::Decimal::from_i128_with_scale(mantissa, scale).to_string()
}

} // verus!
