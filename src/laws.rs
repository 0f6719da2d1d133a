//! Properties that the validator and the builder satisfy over all inputs.
use vstd::prelude::*;

use vstd::arithmetic::div_mod::{lemma_div_by_multiple, lemma_div_multiples_vanish};

use zbus::zvariant::Value;

use crate::error::RejectionReason;
use crate::image::{
    channels_for, image_outcome, image_rejection, ImageDescriptor, ImageView, MAX_HEIGHT,
    MAX_SIZE, MAX_WIDTH, outcome_view, serialized_outcome,
};

verus! {

/// An image of bounded size whose rows are packed with no padding
/// (`row_stride == width * channels`) and whose buffer holds exactly `height`
/// rows is accepted, and the descriptor carries the inputs unchanged.
pub proof fn lemma_packed_image_accepted(
    width: i32,
    height: i32,
    row_stride: i32,
    has_alpha: bool,
    channels: i32,
    data: Seq<u8>,
)
    requires
        1 <= width <= MAX_WIDTH,
        1 <= height <= MAX_HEIGHT,
        channels == channels_for(has_alpha),
        row_stride == width * channels,
        data.len() == height * row_stride,
        data.len() <= MAX_SIZE,
    ensures
        image_outcome(width, height, row_stride, has_alpha, 8, channels, data) == Ok::<
            ImageView,
            RejectionReason,
        >(ImageView { width, height, row_stride, has_alpha, bits_per_sample: 8, channels, data }),
{
    lemma_div_multiples_vanish(row_stride as int, height as int);
    lemma_div_by_multiple(width as int, channels as int);
    assert((height as int) * (row_stride as int) == data.len());
}

/// A buffer larger than the payload ceiling is refused as too large whatever
/// the geometry, once the geometry has passed the minimum-size check that
/// comes first.
pub proof fn lemma_oversized_payload_rejected(
    width: i32,
    height: i32,
    row_stride: i32,
    has_alpha: bool,
    bits_per_sample: i32,
    channels: i32,
    len: int,
)
    requires
        width >= 1,
        height >= 1,
        row_stride >= 3,
        len > MAX_SIZE,
    ensures
        image_rejection(width, height, row_stride, has_alpha, bits_per_sample, channels, len)
            == Some(RejectionReason::PayloadTooLarge),
{
}

/// Validation is a function of its inputs alone: any two results that
/// `validate_image` may return for the same inputs are equal.
pub proof fn lemma_validation_idempotent(
    width: i32,
    height: i32,
    row_stride: i32,
    has_alpha: bool,
    bits_per_sample: i32,
    channels: i32,
    data: Seq<u8>,
    first: Result<ImageDescriptor, RejectionReason>,
    second: Result<ImageDescriptor, RejectionReason>,
)
    requires
        outcome_view(first) == image_outcome(
            width,
            height,
            row_stride,
            has_alpha,
            bits_per_sample,
            channels,
            data,
        ),
        outcome_view(second) == image_outcome(
            width,
            height,
            row_stride,
            has_alpha,
            bits_per_sample,
            channels,
            data,
        ),
    ensures
        outcome_view(first) == outcome_view(second),
{
}

/// Serialization is a function of its inputs alone: any two results that
/// `serialize_image` may return for the same inputs are equal, encoded value
/// included.
pub proof fn lemma_serialization_idempotent(
    width: i32,
    height: i32,
    row_stride: i32,
    has_alpha: bool,
    bits_per_sample: i32,
    channels: i32,
    data: Seq<u8>,
    first: Result<Value<'static>, RejectionReason>,
    second: Result<Value<'static>, RejectionReason>,
)
    requires
        first == serialized_outcome(
            width,
            height,
            row_stride,
            has_alpha,
            bits_per_sample,
            channels,
            data,
        ),
        second == serialized_outcome(
            width,
            height,
            row_stride,
            has_alpha,
            bits_per_sample,
            channels,
            data,
        ),
    ensures
        first == second,
{
}

} // verus!
