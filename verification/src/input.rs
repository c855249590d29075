//! Reading scanline images.
//!
//! An [`InputFile`] exposes an image's header and populates the destination
//! buffers of a [`FrameBufferMut`], either for the whole image at once or
//! scanline range by scanline range.  A destination channel the image does
//! not contain is filled with the channel's fill value; a channel the image
//! contains but the destination does not declare is left alone.

use vstd::math::min;
use vstd::prelude::*;

use crate::error::Error;
use crate::error::Result;
use crate::frame_buffer::ChannelSlice;
use crate::frame_buffer::FrameBuffer;
use crate::frame_buffer::FrameBufferMut;
use crate::header::input_compatible;
use crate::header::Header;
use crate::image::ImageData;

verus! {

/// A constant sequence of the given fill value.
pub open spec fn filled(count: int, fill: u32) -> Seq<u32> {
    Seq::new(count as nat, |k: int| fill)
}

/// What one destination buffer holds after `count` scanlines starting at
/// `start` have been read into it: those rows of the image's samples for the
/// channel, or the fill value if the image lacks the channel, followed by
/// the untouched remainder of the old buffer.
pub open spec fn scattered_slice_data(
    img: ImageData,
    s: ChannelSlice,
    start: int,
    count: int,
) -> Seq<u32> {
    let w = img.header.spec_data_width();
    if img.header.spec_has_channel(s.name@) {
        img.spec_samples_of(s.name@).subrange(start * w, (start + count) * w) + s.data@.skip(
            count * w,
        )
    } else {
        filled(count * w, s.fill) + s.data@.skip(count * w)
    }
}

/// How a read updates one registered channel: everything but the sample
/// buffer stays, and the buffer becomes the scattered data.
pub open spec fn slice_scattered(
    img: ImageData,
    s0: ChannelSlice,
    s1: ChannelSlice,
    start: int,
    count: int,
) -> bool {
    &&& s1.name == s0.name
    &&& s1.pixel_type == s0.pixel_type
    &&& s1.x_sampling == s0.x_sampling
    &&& s1.y_sampling == s0.y_sampling
    &&& s1.fill == s0.fill
    &&& s1.data@ == scattered_slice_data(img, s0, start, count)
}

/// What a read of `count` scanlines starting at `start` does to a frame
/// buffer: geometry and channel set stay, and every registered channel is
/// scattered into.
pub open spec fn read_transition(
    img: ImageData,
    pre: FrameBuffer,
    post: FrameBuffer,
    start: int,
    count: int,
) -> bool {
    &&& post.width == pre.width
    &&& post.height == pre.height
    &&& post.origin_x == pre.origin_x
    &&& post.origin_y == pre.origin_y
    &&& post.slices@.len() == pre.slices@.len()
    &&& forall|j: int|
        0 <= j < pre.slices@.len() ==> slice_scattered(
            img,
            #[trigger] pre.slices@[j],
            post.slices@[j],
            start,
            count,
        )
}

/// When a full-image read is accepted: the destination's geometry equals the
/// data window exactly (dimensions and origin), and every channel shared
/// with the image matches.
pub open spec fn full_read_accepted(img: ImageData, fb: FrameBuffer) -> bool {
    &&& fb.width == img.header.spec_data_width()
    &&& fb.height == img.header.spec_data_height()
    &&& fb.origin_x == img.header.data_window.min.x
    &&& fb.origin_y == img.header.data_window.min.y
    &&& input_compatible(img.header, fb)
}

/// When a partial read is accepted: the starting scanline lies within the
/// image, the destination has the image's width, and every channel shared
/// with the image matches.
pub open spec fn partial_read_accepted(img: ImageData, fb: FrameBuffer, start: int) -> bool {
    &&& start < img.header.spec_data_height()
    &&& fb.width == img.header.spec_data_width()
    &&& input_compatible(img.header, fb)
}

/// Reads scanline images: exposes the header of an image and populates
/// destination frame buffers with its samples.
#[derive(Debug)]
pub struct InputFile {
    /// The image being read.
    pub image: ImageData,
}

impl InputFile {
    /// Well-formedness of the underlying image.
    pub open spec fn wf(&self) -> bool {
        self.image.wf()
    }

    /// Opens an image for reading.
    pub fn new(image: ImageData) -> (r: InputFile)
        requires
            image.wf(),
        ensures
            r.image == image,
            r.wf(),
    {
        InputFile { image }
    }

    /// Access to the image's header.
    pub fn header(&self) -> (r: &Header)
        ensures
            *r == self.image.header,
    {
        &self.image.header
    }

    /// Reads the entire image into `framebuffer` at once.
    ///
    /// Fails, leaving the destination untouched, if the frame buffer's
    /// dimensions or origin differ from the data window, or if a channel
    /// shared with the image has a mismatched description.  On success every
    /// registered destination buffer is fully populated, with fill values
    /// for channels the image lacks.
    pub fn read_pixels(&mut self, framebuffer: &mut FrameBufferMut) -> (r: Result<()>)
        requires
            old(self).wf(),
            old(framebuffer).wf(),
        ensures
            *final(self) == *old(self),
            r is Ok <==> full_read_accepted(old(self).image, old(framebuffer).frame_buffer),
            r is Err ==> *final(framebuffer) == *old(framebuffer),
            r is Ok ==> read_transition(
                old(self).image,
                old(framebuffer).frame_buffer,
                final(framebuffer).frame_buffer,
                0,
                old(self).image.header.spec_data_height(),
            ),
            final(framebuffer).wf(),
    {
        let (w, h) = self.image.header.data_dimensions();
        let (fw, fh) = framebuffer.dimensions();
        if fw != w || fh != h {
            return Err(Error::Generic(
                "the frame buffer size does not match the image dimensions".to_owned(),
            ));
        }
        let (ox, oy) = self.image.header.data_origin();
        let (fox, foy) = framebuffer.origin();
        if fox != ox || foy != oy {
            return Err(Error::Generic(
                "the frame buffer origin does not match the image origin".to_owned(),
            ));
        }
        if let Err(e) = self.image.header.validate_framebuffer_for_input(framebuffer) {
            return Err(e);
        }
        scatter_into(&self.image, framebuffer, 0, h);
        Ok(())
    }

    /// Reads a contiguous range of scanlines into `framebuffer`, starting at
    /// `starting_scanline`: as many scanlines as the destination is tall,
    /// clamped to the bottom of the image.  On success returns the number of
    /// scanlines read; the destination rows beyond that count are left
    /// untouched.
    ///
    /// Fails, leaving the destination untouched, if the starting scanline
    /// lies beyond the last scanline of the image, if the frame buffer's
    /// width differs from the image width, or if a channel shared with the
    /// image has a mismatched description.
    pub fn read_pixels_partial(
        &mut self,
        starting_scanline: u32,
        framebuffer: &mut FrameBufferMut,
    ) -> (r: Result<u32>)
        requires
            old(self).wf(),
            old(framebuffer).wf(),
        ensures
            *final(self) == *old(self),
            r is Ok <==> partial_read_accepted(
                old(self).image,
                old(framebuffer).frame_buffer,
                starting_scanline as int,
            ),
            r is Err ==> *final(framebuffer) == *old(framebuffer),
            r matches Ok(c) ==> {
                &&& c == min(
                    old(self).image.header.spec_data_height() - starting_scanline,
                    old(framebuffer).frame_buffer.height as int,
                )
                &&& read_transition(
                    old(self).image,
                    old(framebuffer).frame_buffer,
                    final(framebuffer).frame_buffer,
                    starting_scanline as int,
                    c as int,
                )
            },
            final(framebuffer).wf(),
    {
        let (w, h) = self.image.header.data_dimensions();
        if starting_scanline >= h {
            return Err(Error::Generic(
                "the starting scanline lies beyond the last scanline of the image".to_owned(),
            ));
        }
        let (fw, fh) = framebuffer.dimensions();
        if fw != w {
            return Err(Error::Generic(
                "the frame buffer width does not match the image width".to_owned(),
            ));
        }
        if let Err(e) = self.image.header.validate_framebuffer_for_input(framebuffer) {
            return Err(e);
        }
        let remaining = h - starting_scanline;
        let count = if fh < remaining {
            fh
        } else {
            remaining
        };
        scatter_into(&self.image, framebuffer, starting_scanline, count);
        Ok(count)
    }
}

/// Populates the first `count` rows of every registered destination channel
/// with the image's scanlines starting at `start`, or with the channel's
/// fill value where the image lacks the channel.
fn scatter_into(image: &ImageData, fb: &mut FrameBufferMut, start: u32, count: u32)
    requires
        image.wf(),
        old(fb).wf(),
        old(fb).frame_buffer.width == image.header.spec_data_width(),
        start + count <= image.header.spec_data_height(),
        count <= old(fb).frame_buffer.height,
    ensures
        read_transition(
            *image,
            old(fb).frame_buffer,
            final(fb).frame_buffer,
            start as int,
            count as int,
        ),
        final(fb).wf(),
{
    let ghost pre = old(fb).frame_buffer;
    let w: u32 = fb.frame_buffer.width;
    let n = fb.frame_buffer.slices.len();
    let mut j: usize = 0;
    while j < n
        invariant
            j <= n,
            image.wf(),
            pre.wf(),
            n == pre.slices@.len(),
            w == pre.width,
            w == image.header.spec_data_width(),
            start + count <= image.header.spec_data_height(),
            count <= pre.height,
            fb.frame_buffer.slices@.len() == n,
            fb.frame_buffer == (FrameBuffer { slices: fb.frame_buffer.slices, ..pre }),
            forall|k: int| j <= k < n ==> fb.frame_buffer.slices@[k] == pre.slices@[k],
            forall|k: int|
                0 <= k < j ==> slice_scattered(
                    *image,
                    #[trigger] pre.slices@[k],
                    fb.frame_buffer.slices@[k],
                    start as int,
                    count as int,
                ),
        decreases n - j,
    {
        let ghost s0 = pre.slices@[j as int];
        let s_name = fb.frame_buffer.slices[j].name.clone();
        let s_pt = fb.frame_buffer.slices[j].pixel_type;
        let s_xs = fb.frame_buffer.slices[j].x_sampling;
        let s_ys = fb.frame_buffer.slices[j].y_sampling;
        let s_fill = fb.frame_buffer.slices[j].fill;
        let ol: usize = fb.frame_buffer.slices[j].data.len();
        proof {
            assert(pre.slices@[j as int].data@.len() == pre.spec_pixel_count());
            assert((count as int) * (w as int) <= (pre.width as int) * (pre.height as int))
                by (nonlinear_arith)
                requires
                    count <= pre.height,
                    w == pre.width,
            ;
        }
        let limit: usize = ((count as u64) * (w as u64)) as usize;
        let mut new_data: Vec<u32> = Vec::new();
        match image.header.find_channel(&fb.frame_buffer.slices[j].name) {
            Some(ci) => {
                proof {
                    image.header.lemma_channel_index_agrees(s0.name@, ci as int);
                    assert(image.samples@[ci as int]@.len() == image.header.spec_data_width()
                        * image.header.spec_data_height());
                    assert(((start as int) + (count as int)) * (w as int) <= (
                    image.header.spec_data_height()) * (w as int)) by (nonlinear_arith)
                        requires
                            start + count <= image.header.spec_data_height(),
                            w >= 0,
                    ;
                    assert((image.header.spec_data_height()) * (w as int) == (w as int) * (
                    image.header.spec_data_height())) by (nonlinear_arith);
                    assert(((start as int) + (count as int)) * (w as int) == (start as int) * (
                    w as int) + (count as int) * (w as int)) by (nonlinear_arith);
                }
                let src = &image.samples[ci];
                let sl: usize = src.len();
                proof {
                    assert(sl == image.header.spec_data_width()
                        * image.header.spec_data_height());
                    assert((start as int) * (w as int) >= 0 && (count as int) * (w as int)
                        >= 0) by (nonlinear_arith)
                        requires
                            start >= 0,
                            count >= 0,
                            w >= 0,
                    ;
                    assert((start as int) * (w as int) + (count as int) * (w as int) <= (
                    w as int) * (image.header.spec_data_height()));
                }
                let base: usize = ((start as u64) * (w as u64)) as usize;
                proof {
                    assert(base == (start as int) * (w as int));
                    assert(limit == (count as int) * (w as int));
                    assert(base + limit <= sl);
                    assert(image.spec_samples_of(s0.name@) == image.samples@[ci as int]@);
                }
                let mut k: usize = 0;
                while k < limit
                    invariant
                        k <= limit,
                        sl == src@.len(),
                        base + limit <= sl,
                        new_data@.len() == k,
                        forall|q: int| 0 <= q < k ==> new_data@[q] == src@[base + q],
                    decreases limit - k,
                {
                    new_data.push(src[base + k]);
                    k = k + 1;
                }
                proof {
                    assert(new_data@ =~= image.spec_samples_of(s0.name@).subrange(
                        (start as int) * (w as int),
                        ((start as int) + (count as int)) * (w as int),
                    ));
                }
            },
            None => {
                let mut k: usize = 0;
                while k < limit
                    invariant
                        k <= limit,
                        new_data@.len() == k,
                        forall|q: int| 0 <= q < k ==> new_data@[q] == s_fill,
                    decreases limit - k,
                {
                    new_data.push(s_fill);
                    k = k + 1;
                }
                proof {
                    assert(new_data@ =~= filled((count as int) * (w as int), s_fill));
                }
            },
        }
        let ghost head = new_data@;
        let mut k: usize = limit;
        while k < ol
            invariant
                limit <= k <= ol,
                j < n,
                n == fb.frame_buffer.slices@.len(),
                fb.frame_buffer.slices@[j as int] == s0,
                ol == s0.data@.len(),
                new_data@.len() == head.len() + k - limit,
                head.len() == limit,
                new_data@.subrange(0, limit as int) == head,
                forall|q: int|
                    limit <= q < k ==> new_data@[head.len() + q - limit] == s0.data@[q],
            decreases ol - k,
        {
            let v = fb.frame_buffer.slices[j].data[k];
            new_data.push(v);
            proof {
                assert(new_data@.subrange(0, limit as int) =~= head);
            }
            k = k + 1;
        }
        proof {
            assert(new_data@ =~= head + s0.data@.skip(limit as int));
        }
        fb.frame_buffer.slices.set(
            j,
            ChannelSlice {
                name: s_name,
                pixel_type: s_pt,
                x_sampling: s_xs,
                y_sampling: s_ys,
                fill: s_fill,
                data: new_data,
            },
        );
        proof {
            assert(slice_scattered(
                *image,
                s0,
                fb.frame_buffer.slices@[j as int],
                start as int,
                count as int,
            ));
        }
        j = j + 1;
    }
    proof {
        assert forall|k: int| 0 <= k < fb.frame_buffer.slices@.len() implies (
        #[trigger] fb.frame_buffer.slices@[k]).data@.len()
            == fb.frame_buffer.spec_pixel_count() by {
            assert(slice_scattered(
                *image,
                pre.slices@[k],
                fb.frame_buffer.slices@[k],
                start as int,
                count as int,
            ));
            let s0k = pre.slices@[k];
            assert(s0k.data@.len() == pre.spec_pixel_count());
            let wi = w as int;
            let si = start as int;
            let cnt = count as int;
            let hi = image.header.spec_data_height();
            assert(cnt * wi <= (pre.width as int) * (pre.height as int)) by (nonlinear_arith)
                requires
                    cnt <= pre.height,
                    wi == pre.width,
                    cnt >= 0,
                    pre.width >= 0,
                    pre.height >= 0,
            ;
            assert((si + cnt) * wi == si * wi + cnt * wi) by (nonlinear_arith);
            assert((si + cnt) * wi <= hi * wi) by (nonlinear_arith)
                requires
                    si + cnt <= hi,
                    wi >= 0,
                    si >= 0,
                    cnt >= 0,
            ;
            assert(hi * wi == wi * hi) by (nonlinear_arith);
            assert(si * wi >= 0 && cnt * wi >= 0) by (nonlinear_arith)
                requires
                    si >= 0,
                    cnt >= 0,
                    wi >= 0,
            ;
            if image.header.spec_has_channel(s0k.name@) {
                assert(image.spec_samples_of(s0k.name@).len() == wi * hi);
            }
        }
        assert forall|a: int, b: int| 0 <= a < b < fb.frame_buffer.slices@.len() implies (
        #[trigger] fb.frame_buffer.slices@[a]).name@ != (
        #[trigger] fb.frame_buffer.slices@[b]).name@ by {
            assert(slice_scattered(
                *image,
                pre.slices@[a],
                fb.frame_buffer.slices@[a],
                start as int,
                count as int,
            ));
            assert(slice_scattered(
                *image,
                pre.slices@[b],
                fb.frame_buffer.slices@[b],
                start as int,
                count as int,
            ));
            assert(pre.slices@[a].name@ != pre.slices@[b].name@);
        }
    }
}

} // verus!
