//! Traits that map host sample types to channel layouts.
//!
//! A frame buffer carries samples as raw 32-bit patterns, so these traits do
//! not touch sample values; they only describe which pixel type a host type
//! corresponds to, and how the channels of a record type are laid out within
//! one repeating sample unit.

use vstd::prelude::*;

use crate::channel::PixelType;

verus! {

/// Types whose values are single pixel samples of one of the supported
/// encodings.
pub trait PixelData {
    /// The pixel type that the implementing type corresponds to.
    spec fn spec_pixel_type() -> PixelType;

    /// Returns which [`PixelType`] the implementing type corresponds to.
    fn pixel_type() -> (r: PixelType)
        ensures
            r == Self::spec_pixel_type(),
    ;
}

impl PixelData for u32 {
    open spec fn spec_pixel_type() -> PixelType {
        PixelType::UINT
    }

    fn pixel_type() -> (r: PixelType) {
        PixelType::UINT
    }
}

/// Types that describe a repeating record of pixel samples: one pixel's worth
/// of data for a set of channels.
///
/// A channel's offset is given in sample slots within the record, so a record
/// of `k` channels occupies `k` slots and a channel's offset is below
/// [`PixelStruct::channel_count`].
pub trait PixelStruct {
    /// The number of channels in this record type.
    spec fn spec_channel_count() -> int;

    /// The pixel type and slot offset of the channel at the given position.
    spec fn spec_channel(i: int) -> (PixelType, int);

    /// Returns the number of channels in this record type.
    fn channel_count() -> (r: usize)
        ensures
            r == Self::spec_channel_count(),
    ;

    /// Returns the pixel type and slot offset of channel `i`.
    fn channel(i: usize) -> (r: (PixelType, usize))
        requires
            0 <= i < Self::spec_channel_count(),
        ensures
            (r.0, r.1 as int) == Self::spec_channel(i as int),
    ;
}

/// The ordered channel layout of a record type: one pixel-type and slot-offset
/// pair per channel.
pub fn channel_layout_of<T: PixelStruct>() -> (r: Vec<(PixelType, usize)>)
    ensures
        r@.len() == T::spec_channel_count(),
        forall|i: int|
            0 <= i < r@.len() ==> ((#[trigger] r@[i]).0, r@[i].1 as int) == T::spec_channel(i),
{
    let n = T::channel_count();
    let mut r: Vec<(PixelType, usize)> = Vec::new();
    let mut i: usize = 0;
    while i < n
        invariant
            i <= n,
            n == T::spec_channel_count(),
            r@.len() == i,
            forall|j: int| 0 <= j < i ==> ((#[trigger] r@[j]).0, r@[j].1 as int) == T::spec_channel(j),
        decreases n - i,
    {
        r.push(T::channel(i));
        i = i + 1;
    }
    r
}

impl PixelStruct for u32 {
    open spec fn spec_channel_count() -> int {
        1
    }

    open spec fn spec_channel(i: int) -> (PixelType, int) {
        (PixelType::UINT, 0)
    }

    fn channel_count() -> (r: usize) {
        1
    }

    fn channel(i: usize) -> (r: (PixelType, usize)) {
        (PixelType::UINT, 0)
    }
}

impl<A: PixelData, B: PixelData> PixelStruct for (A, B) {
    open spec fn spec_channel_count() -> int {
        2
    }

    open spec fn spec_channel(i: int) -> (PixelType, int) {
        if i == 0 {
            (A::spec_pixel_type(), 0)
        } else {
            (B::spec_pixel_type(), 1)
        }
    }

    fn channel_count() -> (r: usize) {
        2
    }

    fn channel(i: usize) -> (r: (PixelType, usize)) {
        if i == 0 {
            (A::pixel_type(), 0)
        } else {
            (B::pixel_type(), 1)
        }
    }
}

impl<A: PixelData, B: PixelData, C: PixelData> PixelStruct for (A, B, C) {
    open spec fn spec_channel_count() -> int {
        3
    }

    open spec fn spec_channel(i: int) -> (PixelType, int) {
        if i == 0 {
            (A::spec_pixel_type(), 0)
        } else if i == 1 {
            (B::spec_pixel_type(), 1)
        } else {
            (C::spec_pixel_type(), 2)
        }
    }

    fn channel_count() -> (r: usize) {
        3
    }

    fn channel(i: usize) -> (r: (PixelType, usize)) {
        if i == 0 {
            (A::pixel_type(), 0)
        } else if i == 1 {
            (B::pixel_type(), 1)
        } else {
            (C::pixel_type(), 2)
        }
    }
}

impl<A: PixelData, B: PixelData, C: PixelData, D: PixelData> PixelStruct for (A, B, C, D) {
    open spec fn spec_channel_count() -> int {
        4
    }

    open spec fn spec_channel(i: int) -> (PixelType, int) {
        if i == 0 {
            (A::spec_pixel_type(), 0)
        } else if i == 1 {
            (B::spec_pixel_type(), 1)
        } else if i == 2 {
            (C::spec_pixel_type(), 2)
        } else {
            (D::spec_pixel_type(), 3)
        }
    }

    fn channel_count() -> (r: usize) {
        4
    }

    fn channel(i: usize) -> (r: (PixelType, usize)) {
        if i == 0 {
            (A::pixel_type(), 0)
        } else if i == 1 {
            (B::pixel_type(), 1)
        } else if i == 2 {
            (C::pixel_type(), 2)
        } else {
            (D::pixel_type(), 3)
        }
    }
}

impl<T: PixelData> PixelStruct for [T; 2] {
    open spec fn spec_channel_count() -> int {
        2
    }

    open spec fn spec_channel(i: int) -> (PixelType, int) {
        (T::spec_pixel_type(), i)
    }

    fn channel_count() -> (r: usize) {
        2
    }

    fn channel(i: usize) -> (r: (PixelType, usize)) {
        (T::pixel_type(), i)
    }
}

impl<T: PixelData> PixelStruct for [T; 3] {
    open spec fn spec_channel_count() -> int {
        3
    }

    open spec fn spec_channel(i: int) -> (PixelType, int) {
        (T::spec_pixel_type(), i)
    }

    fn channel_count() -> (r: usize) {
        3
    }

    fn channel(i: usize) -> (r: (PixelType, usize)) {
        (T::pixel_type(), i)
    }
}

impl<T: PixelData> PixelStruct for [T; 4] {
    open spec fn spec_channel_count() -> int {
        4
    }

    open spec fn spec_channel(i: int) -> (PixelType, int) {
        (T::spec_pixel_type(), i)
    }

    fn channel_count() -> (r: usize) {
        4
    }

    fn channel(i: usize) -> (r: (PixelType, usize)) {
        (T::pixel_type(), i)
    }
}

} // verus!
