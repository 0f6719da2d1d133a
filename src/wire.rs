//! The values handed to the notification service, built by zvariant.
use vstd::prelude::*;

use zbus::zvariant::Value;

verus! {

/// A D-Bus value, as zvariant represents it. Opaque here: the library only
/// builds such values and passes them on.
#[verifier::external_type_specification]
#[verifier::external_body]
pub struct ExValue<'a>(Value<'a>);

/// The D-Bus structure `(iiibiiay)` that zvariant builds from the fields of
/// an image, in this order.
pub uninterp spec fn image_structure(
    width: i32,
    height: i32,
    row_stride: i32,
    has_alpha: bool,
    bits_per_sample: i32,
    channels: i32,
    data: Seq<u8>,
) -> Value<'static>;

/// The D-Bus byte value that zvariant builds from a `u8`.
pub uninterp spec fn byte_value(b: u8) -> Value<'static>;

/// Relies on zvariant's `From` for tuples: the structure whose fields are the
/// tuple's elements converted one by one, a function of those values alone.
#[verifier::external_body]
pub(crate) fn structure_of_image(
    width: i32,
    height: i32,
    row_stride: i32,
    has_alpha: bool,
    bits_per_sample: i32,
    channels: i32,
    data: Vec<u8>,
) -> (r: Value<'static>)
    ensures
        r == image_structure(width, height, row_stride, has_alpha, bits_per_sample, channels, data@),
{
    Value::from((width, height, row_stride, has_alpha, bits_per_sample, channels, data))
}

/// Relies on zvariant's `From<u8>`: the byte value `Value::U8(b)`.
#[verifier::external_body]
pub(crate) fn value_of_byte(b: u8) -> (r: Value<'static>)
    ensures
        r == byte_value(b),
{
    Value::from(b)
}

} // verus!
