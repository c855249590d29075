//! Writing scanline images.
//!
//! A [`ScanlineOutputFile`] binds a header to an accumulating image.  The
//! whole image can be written at once, or in chunks of scanlines; an internal
//! counter tracks how many scanlines have been written, and once it reaches
//! the image height the handle accepts no further writes.

use vstd::math::min;
use vstd::prelude::*;

use crate::error::Error;
use crate::error::Result;
use crate::frame_buffer::FrameBuffer;
use crate::header::output_compatible;
use crate::header::Header;
use crate::image::ImageData;

verus! {

/// Writes scanline images described by a header, either at once or
/// incrementally, and accumulates the written samples.
#[derive(Debug)]
pub struct ScanlineOutputFile {
    /// The properties of the image being written.
    pub header: Header,
    /// How many scanlines have been written so far.
    pub scanlines_written: u32,
    /// One sample buffer per header channel, holding the scanlines written
    /// so far in row-major order.
    pub samples: Vec<Vec<u32>>,
}

/// The samples a frame buffer supplies for the header channel at position
/// `i`: the data of the buffer's slice of the same name.
pub open spec fn source_channel_data(h: Header, fb: FrameBuffer, i: int) -> Seq<u32> {
    fb.slices@[fb.spec_channel_index(h.channels@[i].0@)].data@
}

/// When a full-image write is accepted: nothing written yet, the frame
/// buffer's geometry equals the data window exactly (dimensions and origin),
/// and the buffer supplies every declared channel compatibly.
pub open spec fn full_write_accepted(out: ScanlineOutputFile, fb: FrameBuffer) -> bool {
    &&& out.scanlines_written == 0
    &&& fb.width == out.header.spec_data_width()
    &&& fb.height == out.header.spec_data_height()
    &&& fb.origin_x == out.header.data_window.min.x
    &&& fb.origin_y == out.header.data_window.min.y
    &&& output_compatible(out.header, fb)
}

/// What a full-image write leaves behind: the counter at the image height
/// and, for each declared channel, exactly the samples the frame buffer
/// supplied.
pub open spec fn full_write_transition(
    pre: ScanlineOutputFile,
    fb: FrameBuffer,
    post: ScanlineOutputFile,
) -> bool {
    &&& post.header == pre.header
    &&& post.scanlines_written == pre.header.spec_data_height()
    &&& post.samples@.len() == pre.header.channels@.len()
    &&& forall|i: int|
        0 <= i < post.samples@.len() ==> (#[trigger] post.samples@[i])@ == source_channel_data(
            pre.header,
            fb,
            i,
        )
}

/// When an incremental write is accepted: the image is not yet complete, the
/// frame buffer has the image's width, and it supplies every declared
/// channel compatibly.
pub open spec fn incremental_write_accepted(out: ScanlineOutputFile, fb: FrameBuffer) -> bool {
    &&& out.scanlines_written < out.header.spec_data_height()
    &&& fb.width == out.header.spec_data_width()
    &&& output_compatible(out.header, fb)
}

/// How many scanlines one incremental write takes from the frame buffer:
/// the buffer's height, clamped to what remains of the image.
pub open spec fn spec_chunk(out: ScanlineOutputFile, fb: FrameBuffer) -> int {
    min(fb.height as int, out.header.spec_data_height() - out.scanlines_written)
}

/// What one accepted incremental write leaves behind: the counter advanced
/// by the chunk, and each channel's buffer extended by the chunk's rows of
/// the frame buffer's samples for that channel.
pub open spec fn incremental_write_transition(
    pre: ScanlineOutputFile,
    fb: FrameBuffer,
    post: ScanlineOutputFile,
) -> bool {
    let w = pre.header.spec_data_width();
    let chunk = spec_chunk(pre, fb);
    &&& post.header == pre.header
    &&& post.scanlines_written == pre.scanlines_written + chunk
    &&& post.samples@.len() == pre.samples@.len()
    &&& forall|i: int|
        0 <= i < post.samples@.len() ==> (#[trigger] post.samples@[i])@ == pre.samples@[i]@
            + source_channel_data(pre.header, fb, i).take(chunk * w)
}

/// A sequence of incremental writes, one per chunk, each accepted: the
/// states threaded through are existentially quantified, so the predicate
/// relates only the first and the last.
pub open spec fn incremental_writes_transition(
    pre: ScanlineOutputFile,
    chunks: Seq<FrameBuffer>,
    post: ScanlineOutputFile,
) -> bool
    decreases chunks.len(),
{
    if chunks.len() == 0 {
        post == pre
    } else {
        exists|mid: ScanlineOutputFile|
            {
                &&& chunks[0].wf()
                &&& incremental_write_accepted(pre, chunks[0])
                &&& #[trigger] incremental_write_transition(pre, chunks[0], mid)
                &&& incremental_writes_transition(mid, chunks.skip(1), post)
            }
    }
}

/// The total height of a sequence of frame buffers.
pub open spec fn sum_heights(chunks: Seq<FrameBuffer>) -> int
    decreases chunks.len(),
{
    if chunks.len() == 0 {
        0
    } else {
        chunks[0].height + sum_heights(chunks.skip(1))
    }
}

/// The samples a sequence of frame buffers supplies for the header channel
/// at position `i`, concatenated in chunk order.
pub open spec fn chunks_channel_data(h: Header, chunks: Seq<FrameBuffer>, i: int) -> Seq<u32>
    decreases chunks.len(),
{
    if chunks.len() == 0 {
        Seq::empty()
    } else {
        source_channel_data(h, chunks[0], i) + chunks_channel_data(h, chunks.skip(1), i)
    }
}

impl ScanlineOutputFile {
    /// Well-formedness: a valid header, a counter within the image height,
    /// and one buffer per channel holding exactly the written scanlines.
    pub open spec fn wf(&self) -> bool {
        &&& self.header.wf()
        &&& self.scanlines_written <= self.header.spec_data_height()
        &&& self.samples@.len() == self.header.channels@.len()
        &&& forall|i: int|
            0 <= i < self.samples@.len() ==> (#[trigger] self.samples@[i])@.len()
                == self.header.spec_data_width() * self.scanlines_written
    }

    /// Creates a new output handle for an image with the given properties;
    /// nothing has been written yet.
    pub fn new(header: Header) -> (r: Result<ScanlineOutputFile>)
        requires
            header.wf(),
        ensures
            r is Ok,
            r matches Ok(o) ==> {
                &&& o.header == header
                &&& o.scanlines_written == 0
                &&& o.samples@.len() == header.channels@.len()
                &&& forall|i: int| 0 <= i < o.samples@.len() ==> (#[trigger] o.samples@[i])@.len() == 0
                &&& o.wf()
            },
    {
        let n = header.channels().len();
        let mut samples: Vec<Vec<u32>> = Vec::new();
        let mut i: usize = 0;
        while i < n
            invariant
                i <= n,
                samples@.len() == i,
                forall|k: int| 0 <= k < i ==> (#[trigger] samples@[k])@.len() == 0,
            decreases n - i,
        {
            samples.push(Vec::new());
            i = i + 1;
        }
        Ok(ScanlineOutputFile { header, scanlines_written: 0, samples })
    }

    /// Access to the image's header.
    pub fn header(&self) -> (r: &Header)
        ensures
            *r == self.header,
    {
        &self.header
    }

    /// Writes the entire image at once from `framebuffer`.
    ///
    /// Fails, leaving the handle unchanged, if any scanlines have already
    /// been written by this handle, if the frame buffer's dimensions or
    /// origin differ from the data window, or if it does not supply every
    /// declared channel with a matching description.
    pub fn write_pixels(&mut self, framebuffer: &FrameBuffer) -> (r: Result<()>)
        requires
            old(self).wf(),
            framebuffer.wf(),
        ensures
            r is Ok <==> full_write_accepted(*old(self), *framebuffer),
            r is Err ==> *final(self) == *old(self),
            r is Ok ==> full_write_transition(*old(self), *framebuffer, *final(self)),
            final(self).wf(),
    {
        if self.scanlines_written != 0 {
            return Err(Error::Generic(
                "scanlines have already been written, cannot do a full image write".to_owned(),
            ));
        }
        let (w, h) = self.header.data_dimensions();
        let (fw, fh) = framebuffer.dimensions();
        if fw != w || fh != h {
            return Err(Error::Generic(
                "the frame buffer size does not match the image dimensions".to_owned(),
            ));
        }
        let (ox, oy) = self.header.data_origin();
        let (fox, foy) = framebuffer.origin();
        if fox != ox || foy != oy {
            return Err(Error::Generic(
                "the frame buffer origin does not match the image origin".to_owned(),
            ));
        }
        if let Err(e) = self.header.validate_framebuffer_for_output(framebuffer) {
            return Err(e);
        }
        let n = self.header.channels.len();
        let mut new_samples: Vec<Vec<u32>> = Vec::new();
        let mut i: usize = 0;
        while i < n
            invariant
                i <= n,
                n == self.header.channels@.len(),
                self == old(self),
                framebuffer.wf(),
                output_compatible(self.header, *framebuffer),
                new_samples@.len() == i,
                forall|k: int|
                    0 <= k < i ==> (#[trigger] new_samples@[k])@ == source_channel_data(
                        self.header,
                        *framebuffer,
                        k,
                    ),
            decreases n - i,
        {
            match framebuffer.find_slice(&self.header.channels[i].0) {
                None => {
                    proof {
                        assert(framebuffer.spec_has_channel(self.header.channels@[i as int].0@));
                    }
                    return unreached();
                },
                Some(j) => {
                    proof {
                        framebuffer.lemma_channel_index_agrees(
                            self.header.channels@[i as int].0@,
                            j as int,
                        );
                    }
                    new_samples.push(
                        vstd::slice::slice_to_vec(framebuffer.slices[j].data.as_slice()),
                    );
                },
            }
            i = i + 1;
        }
        self.samples = new_samples;
        self.scanlines_written = h;
        proof {
            assert forall|k: int| 0 <= k < self.samples@.len() implies (
            #[trigger] self.samples@[k])@.len() == self.header.spec_data_width()
                * self.scanlines_written by {
                let idx = framebuffer.spec_channel_index(self.header.channels@[k].0@);
                assert(framebuffer.spec_has_channel(self.header.channels@[k].0@));
                assert(framebuffer.slices@[idx].data@.len() == framebuffer.spec_pixel_count());
            }
        }
        Ok(())
    }

    /// Writes the next chunk of scanlines from `framebuffer`: the buffer's
    /// height, clamped to what remains of the image.
    ///
    /// Fails, leaving the handle unchanged, once the whole image has been
    /// written, if the frame buffer's width differs from the image width, or
    /// if it does not supply every declared channel with a matching
    /// description.
    pub fn write_pixels_incremental(&mut self, framebuffer: &FrameBuffer) -> (r: Result<()>)
        requires
            old(self).wf(),
            framebuffer.wf(),
        ensures
            r is Ok <==> incremental_write_accepted(*old(self), *framebuffer),
            r is Err ==> *final(self) == *old(self),
            r is Ok ==> incremental_write_transition(*old(self), *framebuffer, *final(self)),
            final(self).wf(),
    {
        let (w, h) = self.header.data_dimensions();
        if self.scanlines_written == h {
            return Err(Error::Generic(
                "all scanlines have already been written, cannot do another incremental write".to_owned(),
            ));
        }
        let (fw, fh) = framebuffer.dimensions();
        if fw != w {
            return Err(Error::Generic(
                "the frame buffer width does not match the image width".to_owned(),
            ));
        }
        if let Err(e) = self.header.validate_framebuffer_for_output(framebuffer) {
            return Err(e);
        }
        let remaining = h - self.scanlines_written;
        let chunk = if fh < remaining {
            fh
        } else {
            remaining
        };
        let ghost pre = *self;
        let n = self.header.channels.len();
        let mut new_samples: Vec<Vec<u32>> = Vec::new();
        let mut i: usize = 0;
        while i < n
            invariant
                i <= n,
                n == self.header.channels@.len(),
                *self == pre,
                pre.wf(),
                framebuffer.wf(),
                output_compatible(pre.header, *framebuffer),
                chunk == spec_chunk(pre, *framebuffer),
                w == pre.header.spec_data_width(),
                w == framebuffer.width,
                chunk <= framebuffer.height,
                new_samples@.len() == i,
                forall|k: int|
                    0 <= k < i ==> (#[trigger] new_samples@[k])@ == pre.samples@[k]@
                        + source_channel_data(pre.header, *framebuffer, k).take(
                        spec_chunk(pre, *framebuffer) * pre.header.spec_data_width(),
                    ),
            decreases n - i,
        {
            match framebuffer.find_slice(&self.header.channels[i].0) {
                None => {
                    proof {
                        assert(framebuffer.spec_has_channel(self.header.channels@[i as int].0@));
                    }
                    return unreached();
                },
                Some(j) => {
                    proof {
                        framebuffer.lemma_channel_index_agrees(
                            self.header.channels@[i as int].0@,
                            j as int,
                        );
                    }
                    let src = &framebuffer.slices[j];
                    let dl: usize = src.data.len();
                    proof {
                        assert(framebuffer.slices@[j as int].data@.len()
                            == framebuffer.spec_pixel_count());
                        assert((chunk as int) * (w as int) <= (framebuffer.width as int) * (
                        framebuffer.height as int)) by (nonlinear_arith)
                            requires
                                chunk <= framebuffer.height,
                                w == framebuffer.width,
                        ;
                    }
                    let limit: usize = ((chunk as u64) * (w as u64)) as usize;
                    let mut buf: Vec<u32> = vstd::slice::slice_to_vec(self.samples[i].as_slice());
                    let mut k: usize = 0;
                    while k < limit
                        invariant
                            k <= limit,
                            limit <= src.data@.len(),
                            buf@.len() == pre.samples@[i as int]@.len() + k,
                            forall|q: int|
                                0 <= q < pre.samples@[i as int]@.len() ==> buf@[q]
                                    == pre.samples@[i as int]@[q],
                            forall|q: int|
                                0 <= q < k ==> buf@[pre.samples@[i as int]@.len() + q]
                                    == src.data@[q],
                            i < n,
                            n == pre.header.channels@.len(),
                            pre.samples@.len() == n,
                            *self == pre,
                        decreases limit - k,
                    {
                        buf.push(src.data[k]);
                        k = k + 1;
                    }
                    proof {
                        assert(buf@ =~= pre.samples@[i as int]@ + src.data@.take(limit as int));
                        assert(src.data@ == source_channel_data(pre.header, *framebuffer, i as int));
                        assert(limit == spec_chunk(pre, *framebuffer)
                            * pre.header.spec_data_width());
                    }
                    new_samples.push(buf);
                },
            }
            i = i + 1;
        }
        self.samples = new_samples;
        self.scanlines_written = self.scanlines_written + chunk;
        proof {
            assert forall|k: int| 0 <= k < self.samples@.len() implies (
            #[trigger] self.samples@[k])@.len() == self.header.spec_data_width()
                * self.scanlines_written by {
                let name = pre.header.channels@[k].0@;
                assert(framebuffer.spec_has_channel(name));
                let idx = framebuffer.spec_channel_index(name);
                assert(framebuffer.slices@[idx].data@.len() == framebuffer.spec_pixel_count());
                assert((chunk as int) * (w as int) <= (framebuffer.width as int) * (
                framebuffer.height as int)) by (nonlinear_arith)
                    requires
                        chunk <= framebuffer.height,
                        w == framebuffer.width,
                ;
                assert(self.samples@[k]@.len() == pre.samples@[k]@.len() + (chunk as int) * (
                w as int));
                assert((w as int) * (pre.scanlines_written as int) + (chunk as int) * (w as int)
                    == (w as int) * ((pre.scanlines_written + chunk) as int)) by (nonlinear_arith);
            }
        }
        Ok(())
    }

    /// Hands the completed image over.  Fails unless every scanline has
    /// been written.
    pub fn into_image(self) -> (r: Result<ImageData>)
        requires
            self.wf(),
        ensures
            r is Ok <==> self.scanlines_written == self.header.spec_data_height(),
            r matches Ok(img) ==> img == (ImageData { header: self.header, samples: self.samples })
                && img.wf(),
    {
        let (_, h) = self.header.data_dimensions();
        if self.scanlines_written != h {
            return Err(Error::Generic("the image is incomplete, scanlines are missing".to_owned()));
        }
        Ok(ImageData { header: self.header, samples: self.samples })
    }
}

} // verus!
