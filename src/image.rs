use vstd::prelude::*;

use zbus::zvariant::Value;

use crate::error::RejectionReason;
use crate::wire::{image_structure, structure_of_image};

verus! {

/// Ceiling on the pixel buffer, in bytes (2 MiB).
pub const MAX_SIZE: usize = 0x20_0000;

/// Largest accepted image width.
pub const MAX_WIDTH: i32 = 255;

/// Largest accepted image height.
pub const MAX_HEIGHT: i32 = 255;

/// The number of channels an image has: three colours, plus alpha if present.
pub open spec fn channels_for(has_alpha: bool) -> i32 {
    if has_alpha { 4 } else { 3 }
}

/// The first check that the given geometry and buffer length fail, in the
/// order in which the checks are applied, or `None` if all pass.
pub open spec fn image_rejection(
    width: i32,
    height: i32,
    row_stride: i32,
    has_alpha: bool,
    bits_per_sample: i32,
    channels: i32,
    len: int,
) -> Option<RejectionReason> {
    if width < 1 || height < 1 || row_stride < 3 {
        Some(RejectionReason::GeometryTooSmall)
    } else if len > MAX_SIZE {
        Some(RejectionReason::PayloadTooLarge)
    } else if bits_per_sample != 8 {
        Some(RejectionReason::UnsupportedSampleDepth)
    } else if channels != channels_for(has_alpha) {
        Some(RejectionReason::ChannelCountMismatch)
    } else if width > MAX_WIDTH || height > MAX_HEIGHT {
        Some(RejectionReason::DimensionTooLarge)
    } else if len / (height as int) < row_stride {
        Some(RejectionReason::BufferTooSmallForHeight)
    } else if row_stride / channels < width {
        Some(RejectionReason::RowStrideTooSmallForWidth)
    } else {
        None
    }
}

/// The mathematical content of a validated image.
pub struct ImageView {
    pub width: i32,
    pub height: i32,
    pub row_stride: i32,
    pub has_alpha: bool,
    pub bits_per_sample: i32,
    pub channels: i32,
    pub data: Seq<u8>,
}

impl ImageView {
    /// What every validated image satisfies: bounded geometry, eight bits per
    /// sample, a channel count that matches the alpha flag, and a buffer large
    /// enough to be read as `height` rows of `width` pixels.
    pub open spec fn valid(self) -> bool {
        &&& 1 <= self.width <= MAX_WIDTH
        &&& 1 <= self.height <= MAX_HEIGHT
        &&& self.row_stride >= 3
        &&& self.bits_per_sample == 8
        &&& self.channels == channels_for(self.has_alpha)
        &&& self.data.len() <= MAX_SIZE
        &&& (self.data.len() as int) / (self.height as int) >= self.row_stride
        &&& self.row_stride / self.channels >= self.width
    }
}

/// What validating the given inputs yields: the first failed check, or an
/// image that carries the inputs unchanged.
pub open spec fn image_outcome(
    width: i32,
    height: i32,
    row_stride: i32,
    has_alpha: bool,
    bits_per_sample: i32,
    channels: i32,
    data: Seq<u8>,
) -> Result<ImageView, RejectionReason> {
    match image_rejection(
        width,
        height,
        row_stride,
        has_alpha,
        bits_per_sample,
        channels,
        data.len() as int,
    ) {
        Some(e) => Err(e),
        None => Ok(ImageView { width, height, row_stride, has_alpha, bits_per_sample, channels, data }),
    }
}

/// An image whose geometry and buffer have passed every check. It can only be
/// obtained from [`validate_image`].
pub struct ImageDescriptor {
    width: i32,
    height: i32,
    row_stride: i32,
    has_alpha: bool,
    bits_per_sample: i32,
    channels: i32,
    data: Vec<u8>,
}

impl View for ImageDescriptor {
    type V = ImageView;

    closed spec fn view(&self) -> ImageView {
        ImageView {
            width: self.width,
            height: self.height,
            row_stride: self.row_stride,
            has_alpha: self.has_alpha,
            bits_per_sample: self.bits_per_sample,
            channels: self.channels,
            data: self.data@,
        }
    }
}

/// The view of a validation result.
pub open spec fn outcome_view(r: Result<ImageDescriptor, RejectionReason>) -> Result<ImageView, RejectionReason> {
    match r {
        Ok(d) => Ok(d@),
        Err(e) => Err(e),
    }
}

/// Checks untrusted image geometry against its pixel buffer. The checks run
/// in a fixed order and the first that fails is reported; on success the
/// descriptor carries the inputs unchanged and owns the buffer.
pub fn validate_image(
    width: i32,
    height: i32,
    row_stride: i32,
    has_alpha: bool,
    bits_per_sample: i32,
    channels: i32,
    data: Vec<u8>,
) -> (r: Result<ImageDescriptor, RejectionReason>)
    ensures
        outcome_view(r) == image_outcome(
            width,
            height,
            row_stride,
            has_alpha,
            bits_per_sample,
            channels,
            data@,
        ),
        r matches Ok(d) ==> d@.valid(),
{
    if width < 1 || height < 1 || row_stride < 3 {
        return Err(RejectionReason::GeometryTooSmall);
    }
    if data.len() > MAX_SIZE {
        return Err(RejectionReason::PayloadTooLarge);
    }
    if bits_per_sample != 8 {
        return Err(RejectionReason::UnsupportedSampleDepth);
    }
    let expected_channels: i32 = if has_alpha { 4 } else { 3 };
    if channels != expected_channels {
        return Err(RejectionReason::ChannelCountMismatch);
    }
    if width > MAX_WIDTH || height > MAX_HEIGHT {
        return Err(RejectionReason::DimensionTooLarge);
    }
    if data.len() / (height as usize) < row_stride as usize {
        return Err(RejectionReason::BufferTooSmallForHeight);
    }
    if (row_stride as u32) / (channels as u32) < width as u32 {
        return Err(RejectionReason::RowStrideTooSmallForWidth);
    }
    Ok(ImageDescriptor { width, height, row_stride, has_alpha, bits_per_sample, channels, data })
}


impl ImageDescriptor {
    /// The image as the D-Bus structure that the notification service reads
    /// as an icon: width, height, row stride, alpha flag, bits per sample,
    /// channels and pixel data, in that order.
    pub fn into_value(self) -> (r: Value<'static>)
        ensures
            r == image_structure(
                self@.width,
                self@.height,
                self@.row_stride,
                self@.has_alpha,
                self@.bits_per_sample,
                self@.channels,
                self@.data,
            ),
    {
        structure_of_image(
            self.width,
            self.height,
            self.row_stride,
            self.has_alpha,
            self.bits_per_sample,
            self.channels,
            self.data,
        )
    }
}

/// What serializing the given inputs yields: the first failed check, or the
/// D-Bus structure of the inputs.
pub open spec fn serialized_outcome(
    width: i32,
    height: i32,
    row_stride: i32,
    has_alpha: bool,
    bits_per_sample: i32,
    channels: i32,
    data: Seq<u8>,
) -> Result<Value<'static>, RejectionReason> {
    match image_rejection(
        width,
        height,
        row_stride,
        has_alpha,
        bits_per_sample,
        channels,
        data.len() as int,
    ) {
        Some(e) => Err(e),
        None => Ok(
            image_structure(width, height, row_stride, has_alpha, bits_per_sample, channels, data),
        ),
    }
}

/// Validates untrusted image inputs as [`validate_image`] does and, on
/// success, encodes the validated image as a D-Bus structure.
pub fn serialize_image(
    width: i32,
    height: i32,
    row_stride: i32,
    has_alpha: bool,
    bits_per_sample: i32,
    channels: i32,
    data: Vec<u8>,
) -> (r: Result<Value<'static>, RejectionReason>)
    ensures
        r == serialized_outcome(
            width,
            height,
            row_stride,
            has_alpha,
            bits_per_sample,
            channels,
            data@,
        ),
{
    match validate_image(width, height, row_stride, has_alpha, bits_per_sample, channels, data) {
        Ok(d) => Ok(d.into_value()),
        Err(e) => Err(e),
    }
}


impl ImageDescriptor {
    pub fn width(&self) -> (r: i32)
        ensures
            r == self@.width,
    {
        self.width
    }

    pub fn height(&self) -> (r: i32)
        ensures
            r == self@.height,
    {
        self.height
    }

    pub fn row_stride(&self) -> (r: i32)
        ensures
            r == self@.row_stride,
    {
        self.row_stride
    }

    pub fn has_alpha(&self) -> (r: bool)
        ensures
            r == self@.has_alpha,
    {
        self.has_alpha
    }

    pub fn bits_per_sample(&self) -> (r: i32)
        ensures
            r == self@.bits_per_sample,
    {
        self.bits_per_sample
    }

    pub fn channels(&self) -> (r: i32)
        ensures
            r == self@.channels,
    {
        self.channels
    }

    /// The pixel buffer, row after row.
    pub fn data(&self) -> (r: &[u8])
        ensures
            r@ == self@.data,
    {
        self.data.as_slice()
    }
}

} // verus!
