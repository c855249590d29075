//! Frame buffers describe image data held as per-channel sample buffers.
//!
//! A frame buffer does not describe an image file; it describes the caller's
//! view of pixel data: which named channels exist, how their samples are
//! encoded, and the sample buffers themselves.  [`FrameBuffer`] carries
//! read-only source data for writing, and [`FrameBufferMut`] carries
//! destination buffers to be populated by reading, together with a per-channel
//! fill value used when the image read lacks that channel.
//!
//! Samples are raw 32-bit patterns; for `HALF` channels only the low 16 bits
//! of each sample are meaningful.

use vstd::prelude::*;

use crate::channel::Channel;
use crate::channel::PixelType;
use crate::error::Error;
use crate::error::Result;
use crate::header::Header;

verus! {

/// One named channel registered in a frame buffer: its sample encoding,
/// subsampling, fill value, and the channel's sample buffer in row-major
/// order.
#[derive(Debug)]
pub struct ChannelSlice {
    /// Channel name; unique within one frame buffer.
    pub name: String,
    /// Sample encoding of the buffer.
    pub pixel_type: PixelType,
    /// Horizontal subsampling factor.
    pub x_sampling: i32,
    /// Vertical subsampling factor.
    pub y_sampling: i32,
    /// Sample bit pattern used when an image read lacks this channel.
    pub fill: u32,
    /// Samples in row-major order; exactly width times height of the owning
    /// frame buffer.
    pub data: Vec<u32>,
}

impl ChannelSlice {
    /// Whether this slice agrees with a header channel where the two must
    /// agree: same sample encoding and same subsampling.
    pub open spec fn spec_compatible_with(&self, ch: Channel) -> bool {
        &&& self.pixel_type == ch.pixel_type
        &&& self.x_sampling == ch.x_sampling
        &&& self.y_sampling == ch.y_sampling
    }
}

/// Description of one channel for a multi-channel insertion: the channel's
/// name, encoding, slot offset within the repeating pixel record, and the
/// fill value used on the read path.
#[derive(Debug)]
pub struct ChannelDesc {
    /// Channel name; unique within one insertion and within the buffer.
    pub name: String,
    /// Sample encoding of the channel.
    pub pixel_type: PixelType,
    /// Slot offset of this channel's sample within one pixel record.
    pub offset: usize,
    /// Fill value for the read path; ignored when writing.
    pub fill: u32,
}

/// The samples of one channel gathered out of interleaved pixel records:
/// element `p` is the sample at slot `offset` of record `p`.
pub open spec fn gather_interleaved(
    data: Seq<u32>,
    record_len: int,
    offset: int,
    count: int,
) -> Seq<u32> {
    Seq::new(count as nat, |p: int| data[p * record_len + offset])
}

/// Points to and describes in-memory image data for writing.
#[derive(Debug)]
pub struct FrameBuffer {
    /// Width of the described rectangle in pixels.
    pub width: u32,
    /// Height of the described rectangle in pixels.
    pub height: u32,
    /// The data-window x coordinate that buffer column zero corresponds to.
    pub origin_x: i32,
    /// The data-window y coordinate that buffer row zero corresponds to.
    pub origin_y: i32,
    /// The registered channels.
    pub slices: Vec<ChannelSlice>,
}

impl FrameBuffer {
    /// Number of pixels the frame buffer describes.
    pub open spec fn spec_pixel_count(&self) -> int {
        self.width * self.height
    }

    /// No two registered channels share a name.
    pub open spec fn slice_names_unique(&self) -> bool {
        forall|i: int, j: int|
            0 <= i < j < self.slices@.len() ==> (#[trigger] self.slices@[i]).name@ != (
            #[trigger] self.slices@[j]).name@
    }

    /// Well-formedness: unique channel names, and every sample buffer holds
    /// exactly one sample per described pixel.
    pub open spec fn wf(&self) -> bool {
        &&& self.slice_names_unique()
        &&& forall|i: int|
            0 <= i < self.slices@.len() ==> (#[trigger] self.slices@[i]).data@.len()
                == self.spec_pixel_count()
    }

    /// Whether a channel of the given name is registered.
    pub open spec fn spec_has_channel(&self, name: Seq<char>) -> bool {
        exists|i: int| 0 <= i < self.slices@.len() && (#[trigger] self.slices@[i]).name@ == name
    }

    /// Position of the channel of the given name.
    pub open spec fn spec_channel_index(&self, name: Seq<char>) -> int {
        choose|i: int| 0 <= i < self.slices@.len() && (#[trigger] self.slices@[i]).name@ == name
    }

    /// With unique names, the channel index of a name is the only position
    /// holding that name.
    pub proof fn lemma_channel_index_agrees(&self, name: Seq<char>, i: int)
        requires
            self.slice_names_unique(),
            0 <= i < self.slices@.len(),
            self.slices@[i].name@ == name,
        ensures
            self.spec_has_channel(name),
            self.spec_channel_index(name) == i,
    {
        assert(self.spec_has_channel(name));
        let j = self.spec_channel_index(name);
        if i < j {
            assert(self.slices@[i].name@ != self.slices@[j].name@);
        } else if j < i {
            assert(self.slices@[j].name@ != self.slices@[i].name@);
        }
    }

    /// Creates an empty frame buffer with the given dimensions in pixels and
    /// its origin at (0, 0).
    pub fn new(width: u32, height: u32) -> (r: FrameBuffer)
        ensures
            r == (FrameBuffer {
                width,
                height,
                origin_x: 0i32,
                origin_y: 0i32,
                slices: r.slices,
            }),
            r.slices@.len() == 0,
            r.wf(),
    {
        FrameBuffer { width, height, origin_x: 0, origin_y: 0, slices: Vec::new() }
    }

    /// Creates an empty frame buffer whose buffer coordinate (0, 0)
    /// corresponds to the data-window coordinate (x, y).
    pub fn new_with_origin(x: i32, y: i32, width: u32, height: u32) -> (r: FrameBuffer)
        ensures
            r == (FrameBuffer { width, height, origin_x: x, origin_y: y, slices: r.slices }),
            r.slices@.len() == 0,
            r.wf(),
    {
        FrameBuffer { width, height, origin_x: x, origin_y: y, slices: Vec::new() }
    }

    /// The dimensions of the frame buffer.
    pub fn dimensions(&self) -> (r: (u32, u32))
        ensures
            r.0 == self.width,
            r.1 == self.height,
    {
        (self.width, self.height)
    }

    /// The data-window coordinate that buffer index (0, 0) corresponds to.
    pub fn origin(&self) -> (r: (i32, i32))
        ensures
            r.0 == self.origin_x,
            r.1 == self.origin_y,
    {
        (self.origin_x, self.origin_y)
    }

    /// Position of the channel of the given name, if registered.
    pub(crate) fn find_slice(&self, name: &String) -> (r: Option<usize>)
        ensures
            match r {
                Some(i) => i < self.slices@.len() && self.slices@[i as int].name@ == name@,
                None => !self.spec_has_channel(name@),
            },
    {
        let n = self.slices.len();
        let mut i: usize = 0;
        while i < n
            invariant
                i <= n,
                n == self.slices@.len(),
                forall|j: int| 0 <= j < i ==> (#[trigger] self.slices@[j]).name@ != name@,
            decreases n - i,
        {
            if self.slices[i].name == *name {
                return Some(i);
            }
            i = i + 1;
        }
        None
    }

    /// Borrows the registered channel of the given name.
    pub fn get_slice(&self, name: &str) -> (r: Option<&ChannelSlice>)
        requires
            self.slice_names_unique(),
        ensures
            match r {
                Some(s) => self.spec_has_channel(name@) && *s == self.slices@[self.spec_channel_index(
                    name@,
                )],
                None => !self.spec_has_channel(name@),
            },
    {
        let key: String = name.to_owned();
        match self.find_slice(&key) {
            Some(i) => {
                proof {
                    self.lemma_channel_index_agrees(name@, i as int);
                }
                Some(&self.slices[i])
            },
            None => None,
        }
    }

    /// Borrows the sample buffer of the registered channel of the given
    /// name.
    pub fn channel_data(&self, name: &str) -> (r: Option<&Vec<u32>>)
        requires
            self.slice_names_unique(),
        ensures
            match r {
                Some(d) => self.spec_has_channel(name@) && d@ == self.slices@[self.spec_channel_index(
                    name@,
                )].data@,
                None => !self.spec_has_channel(name@),
            },
    {
        match self.get_slice(name) {
            Some(s) => Some(&s.data),
            None => None,
        }
    }

    /// Registers one channel backed by the given row-major samples, with the
    /// given fill value for the read path.
    ///
    /// Fails, leaving the buffer unchanged, if the buffer's length is not
    /// exactly width times height or if the name is already registered.
    pub(crate) fn insert_slice(
        &mut self,
        name: &str,
        pixel_type: PixelType,
        fill: u32,
        data: &[u32],
    ) -> (r: Result<()>)
        ensures
            r is Ok <==> (data@.len() == old(self).spec_pixel_count() && !old(
                self,
            ).spec_has_channel(name@)),
            r is Err ==> *final(self) == *old(self),
            r is Ok ==> {
                &&& final(self).slices@.len() == old(self).slices@.len() + 1
                &&& forall|i: int|
                    0 <= i < old(self).slices@.len() ==> final(self).slices@[i] == old(
                        self,
                    ).slices@[i]
                &&& final(self).slices@.last().name@ == name@
                &&& final(self).slices@.last().pixel_type == pixel_type
                &&& final(self).slices@.last().x_sampling == 1i32
                &&& final(self).slices@.last().y_sampling == 1i32
                &&& final(self).slices@.last().fill == fill
                &&& final(self).slices@.last().data@ == data@
                &&& *final(self) == (FrameBuffer { slices: final(self).slices, ..*old(self) })
            },
            old(self).wf() && r is Ok ==> final(self).wf(),
    {
        assert((self.width as int) * (self.height as int) <= u64::MAX) by (nonlinear_arith)
            requires
                self.width <= u32::MAX,
                self.height <= u32::MAX,
        ;
        let wh: u64 = (self.width as u64) * (self.height as u64);
        if (data.len() as u64) != wh {
            return Err(Error::Generic(
                "buffer length does not match the frame buffer dimensions".to_owned(),
            ));
        }
        let key: String = name.to_owned();
        if self.find_slice(&key).is_some() {
            return Err(Error::Generic("a channel of this name is already registered".to_owned()));
        }
        let samples: Vec<u32> = vstd::slice::slice_to_vec(data);
        self.slices.push(
            ChannelSlice {
                name: key,
                pixel_type,
                x_sampling: 1,
                y_sampling: 1,
                fill,
                data: samples,
            },
        );
        proof {
            if old(self).wf() {
                assert forall|i: int, j: int| 0 <= i < j < self.slices@.len() implies (
                #[trigger] self.slices@[i]).name@ != (#[trigger] self.slices@[j]).name@ by {
                    if j == self.slices@.len() - 1 {
                        assert(!old(self).spec_has_channel(name@));
                        assert(old(self).slices@[i].name@ != name@);
                    } else {
                        assert(old(self).slices@[i].name@ != old(self).slices@[j].name@);
                    }
                }
            }
        }
        Ok(())
    }

    /// Registers one channel backed by the given row-major samples.
    ///
    /// The buffer must contain exactly width times height samples, where
    /// width and height are the dimensions of the frame buffer; a buffer of
    /// any other length is rejected.
    pub fn insert_channel(&mut self, name: &str, pixel_type: PixelType, data: &[u32]) -> (r: Result<
        (),
    >)
        ensures
            r is Ok <==> (data@.len() == old(self).spec_pixel_count() && !old(
                self,
            ).spec_has_channel(name@)),
            r is Err ==> *final(self) == *old(self),
            r is Ok ==> {
                &&& final(self).slices@.len() == old(self).slices@.len() + 1
                &&& forall|i: int|
                    0 <= i < old(self).slices@.len() ==> final(self).slices@[i] == old(
                        self,
                    ).slices@[i]
                &&& final(self).slices@.last().name@ == name@
                &&& final(self).slices@.last().pixel_type == pixel_type
                &&& final(self).slices@.last().x_sampling == 1i32
                &&& final(self).slices@.last().y_sampling == 1i32
                &&& final(self).slices@.last().data@ == data@
                &&& *final(self) == (FrameBuffer { slices: final(self).slices, ..*old(self) })
            },
            old(self).wf() && r is Ok ==> final(self).wf(),
    {
        self.insert_slice(name, pixel_type, 0, data)
    }

    /// Registers several channels at once out of one buffer of interleaved
    /// pixel records.
    ///
    /// `record_len` is the number of sample slots in one pixel record, and
    /// `data` holds width times height such records; each described channel
    /// takes the sample at its slot offset from every record.  Fails, leaving
    /// the buffer unchanged, if the buffer's length is not exactly width
    /// times height records, if an offset lies outside the record, if two
    /// descriptions share a name, or if a name is already registered.
    pub fn insert_channels(&mut self, descs: &[ChannelDesc], record_len: usize, data: &[u32]) -> (
    r: Result<()>)
        ensures
            r is Ok <==> insert_channels_accepted(*old(self), descs@, record_len as int, data@),
            r is Err ==> *final(self) == *old(self),
            r is Ok ==> {
                &&& final(self).slices@.len() == old(self).slices@.len() + descs@.len()
                &&& forall|i: int|
                    0 <= i < old(self).slices@.len() ==> final(self).slices@[i] == old(
                        self,
                    ).slices@[i]
                &&& forall|i: int|
                    0 <= i < descs@.len() ==> inserted_slice_matches(
                        #[trigger] final(self).slices@[old(self).slices@.len() + i],
                        descs@[i],
                        data@,
                        record_len as int,
                        old(self).spec_pixel_count(),
                    )
                &&& *final(self) == (FrameBuffer { slices: final(self).slices, ..*old(self) })
            },
            old(self).wf() && r is Ok ==> final(self).wf(),
    {
        proof {
            assert((self.width as int) * (self.height as int) <= u64::MAX) by (nonlinear_arith)
                requires
                    self.width <= u32::MAX,
                    self.height <= u32::MAX,
            ;
        }
        let wh: u64 = (self.width as u64) * (self.height as u64);
        if record_len < 1 {
            return Err(Error::Generic("a pixel record must hold at least one slot".to_owned()));
        }
        proof {
            assert((wh as int) * (record_len as int) <= u128::MAX) by (nonlinear_arith)
                requires
                    wh <= u64::MAX,
                    record_len <= u64::MAX,
            ;
        }
        if (data.len() as u128) != (wh as u128) * (record_len as u128) {
            return Err(Error::Generic(
                "buffer length does not match the frame buffer dimensions".to_owned(),
            ));
        }
        let n = descs.len();
        let mut i: usize = 0;
        while i < n
            invariant
                i <= n,
                n == descs@.len(),
                record_len >= 1,
                forall|k: int| 0 <= k < i ==> (#[trigger] descs@[k]).offset < record_len,
                forall|k: int| 0 <= k < i ==> !self.spec_has_channel((#[trigger] descs@[k]).name@),
                forall|k: int, l: int|
                    0 <= k < l < i ==> (#[trigger] descs@[k]).name@ != (#[trigger] descs@[l]).name@,
            decreases n - i,
        {
            if descs[i].offset >= record_len {
                return Err(Error::Generic(
                    "a channel offset lies outside the pixel record".to_owned(),
                ));
            }
            if self.find_slice(&descs[i].name).is_some() {
                return Err(Error::Generic(
                    "a channel of this name is already registered".to_owned(),
                ));
            }
            let mut j: usize = 0;
            while j < i
                invariant
                    j <= i < n,
                    n == descs@.len(),
                    forall|l: int| 0 <= l < j ==> (#[trigger] descs@[l]).name@ != descs@[i as int].name@,
                decreases i - j,
            {
                if descs[j].name == descs[i].name {
                    return Err(Error::Generic(
                        "two channel descriptions share one name".to_owned(),
                    ));
                }
                j = j + 1;
            }
            i = i + 1;
        }
        let ghost pre = *self;
        let count: usize = ((data.len() as u64) / (record_len as u64)) as usize;
        proof {
            lemma_mul_div_exact(wh as int, record_len as int);
            assert(count == pre.spec_pixel_count());
        }
        let mut i: usize = 0;
        while i < n
            invariant
                i <= n,
                n == descs@.len(),
                record_len >= 1,
                count == pre.spec_pixel_count(),
                data@.len() == count * record_len,
                forall|k: int| 0 <= k < n ==> (#[trigger] descs@[k]).offset < record_len,
                forall|k: int| 0 <= k < n ==> !pre.spec_has_channel((#[trigger] descs@[k]).name@),
                forall|k: int, l: int|
                    0 <= k < l < n ==> (#[trigger] descs@[k]).name@ != (#[trigger] descs@[l]).name@,
                self.slices@.len() == pre.slices@.len() + i,
                forall|k: int| 0 <= k < pre.slices@.len() ==> self.slices@[k] == pre.slices@[k],
                forall|k: int|
                    0 <= k < i ==> inserted_slice_matches(
                        #[trigger] self.slices@[pre.slices@.len() + k],
                        descs@[k],
                        data@,
                        record_len as int,
                        pre.spec_pixel_count(),
                    ),
                *self == (FrameBuffer { slices: self.slices, ..pre }),
            decreases n - i,
        {
            let samples = gather_channel(data, record_len, descs[i].offset, count);
            let slice = ChannelSlice {
                name: descs[i].name.clone(),
                pixel_type: descs[i].pixel_type,
                x_sampling: 1,
                y_sampling: 1,
                fill: descs[i].fill,
                data: samples,
            };
            self.slices.push(slice);
            i = i + 1;
        }
        proof {
            let base = pre.slices@.len() as int;
            assert forall|k: int| base <= k < self.slices@.len() implies (
            #[trigger] self.slices@[k]).name@ == descs@[k - base].name@ && self.slices@[k].data@.len()
                == pre.spec_pixel_count() by {
                assert(inserted_slice_matches(
                    self.slices@[base + (k - base)],
                    descs@[k - base],
                    data@,
                    record_len as int,
                    pre.spec_pixel_count(),
                ));
            }
            if pre.wf() {
                assert forall|a: int, b: int| 0 <= a < b < self.slices@.len() implies (
                #[trigger] self.slices@[a]).name@ != (#[trigger] self.slices@[b]).name@ by {
                    if b < base {
                        assert(pre.slices@[a].name@ != pre.slices@[b].name@);
                    } else if a < base {
                        assert(!pre.spec_has_channel(descs@[b - base].name@));
                        assert(pre.slices@[a].name@ != descs@[b - base].name@);
                        assert(self.slices@[a] == pre.slices@[a]);
                    } else {
                        assert(descs@[a - base].name@ != descs@[b - base].name@);
                    }
                }
                assert forall|k: int| 0 <= k < self.slices@.len() implies (
                #[trigger] self.slices@[k]).data@.len() == self.spec_pixel_count() by {
                    if k < base {
                        assert(pre.slices@[k].data@.len() == pre.spec_pixel_count());
                    }
                }
            }
        }
        Ok(())
    }

    /// Checks that this frame buffer's dimensions match the data window of
    /// the given header, as a write requires.
    pub fn validate_header_for_output(&self, header: &Header) -> (r: Result<()>)
        requires
            header.wf(),
        ensures
            r is Ok <==> (self.width == header.spec_data_width() && self.height
                == header.spec_data_height()),
    {
        let (w, h) = header.data_dimensions();
        if self.width != w || self.height != h {
            return Err(Error::Generic(
                "the frame buffer size does not match the data window".to_owned(),
            ));
        }
        Ok(())
    }
}

/// Points to and describes in-memory image data for reading: the registered
/// destination buffers are populated by a read, and each channel carries a
/// fill value used when the image lacks it.
#[derive(Debug)]
pub struct FrameBufferMut {
    /// The underlying descriptor state, shared with the write path.
    pub frame_buffer: FrameBuffer,
}

impl FrameBufferMut {
    /// Well-formedness of the underlying descriptor state.
    pub open spec fn wf(&self) -> bool {
        self.frame_buffer.wf()
    }

    /// Creates an empty frame buffer with the given dimensions in pixels and
    /// its origin at (0, 0).
    pub fn new(width: u32, height: u32) -> (r: FrameBufferMut)
        ensures
            r.frame_buffer.width == width,
            r.frame_buffer.height == height,
            r.frame_buffer.origin_x == 0i32,
            r.frame_buffer.origin_y == 0i32,
            r.frame_buffer.slices@.len() == 0,
            r.wf(),
    {
        FrameBufferMut { frame_buffer: FrameBuffer::new(width, height) }
    }

    /// Creates an empty frame buffer whose buffer coordinate (0, 0)
    /// corresponds to the data-window coordinate (x, y).
    pub fn new_with_origin(x: i32, y: i32, width: u32, height: u32) -> (r: FrameBufferMut)
        ensures
            r.frame_buffer.width == width,
            r.frame_buffer.height == height,
            r.frame_buffer.origin_x == x,
            r.frame_buffer.origin_y == y,
            r.frame_buffer.slices@.len() == 0,
            r.wf(),
    {
        FrameBufferMut { frame_buffer: FrameBuffer::new_with_origin(x, y, width, height) }
    }

    /// The dimensions of the frame buffer.
    pub fn dimensions(&self) -> (r: (u32, u32))
        ensures
            r.0 == self.frame_buffer.width,
            r.1 == self.frame_buffer.height,
    {
        self.frame_buffer.dimensions()
    }

    /// The data-window coordinate that buffer index (0, 0) corresponds to.
    pub fn origin(&self) -> (r: (i32, i32))
        ensures
            r.0 == self.frame_buffer.origin_x,
            r.1 == self.frame_buffer.origin_y,
    {
        self.frame_buffer.origin()
    }

    /// Borrows the sample buffer of the registered channel of the given
    /// name.
    pub fn channel_data(&self, name: &str) -> (r: Option<&Vec<u32>>)
        requires
            self.frame_buffer.slice_names_unique(),
        ensures
            match r {
                Some(d) => self.frame_buffer.spec_has_channel(name@) && d@
                    == self.frame_buffer.slices@[self.frame_buffer.spec_channel_index(
                    name@,
                )].data@,
                None => !self.frame_buffer.spec_has_channel(name@),
            },
    {
        self.frame_buffer.channel_data(name)
    }

    /// Registers one destination channel backed by the given row-major
    /// buffer, with the fill value used if the image read lacks the channel.
    ///
    /// The buffer must contain exactly width times height samples, where
    /// width and height are the dimensions of the frame buffer; a buffer of
    /// any other length is rejected.
    pub fn insert_channel(&mut self, name: &str, pixel_type: PixelType, fill: u32, data: &[u32])
        -> (r: Result<()>)
        ensures
            r is Ok <==> (data@.len() == old(self).frame_buffer.spec_pixel_count() && !old(self).frame_buffer.spec_has_channel(name@)),
            r is Err ==> *final(self) == *old(self),
            r is Ok ==> {
                &&& final(self).frame_buffer.slices@.len() == old(self).frame_buffer.slices@.len()
                    + 1
                &&& forall|i: int|
                    0 <= i < old(self).frame_buffer.slices@.len() ==> final(self).frame_buffer.slices@[i] == old(self).frame_buffer.slices@[i]
                &&& final(self).frame_buffer.slices@.last().name@ == name@
                &&& final(self).frame_buffer.slices@.last().pixel_type == pixel_type
                &&& final(self).frame_buffer.slices@.last().x_sampling == 1i32
                &&& final(self).frame_buffer.slices@.last().y_sampling == 1i32
                &&& final(self).frame_buffer.slices@.last().fill == fill
                &&& final(self).frame_buffer.slices@.last().data@ == data@
                &&& final(self).frame_buffer == (FrameBuffer {
                    slices: final(self).frame_buffer.slices,
                    ..old(self).frame_buffer
                })
            },
            old(self).wf() && r is Ok ==> final(self).wf(),
    {
        self.frame_buffer.insert_slice(name, pixel_type, fill, data)
    }

    /// Registers several destination channels at once, laid out as one
    /// buffer of interleaved pixel records; each description carries the
    /// fill value for its channel.
    ///
    /// Accepts and fails exactly as the write-path multi-channel insertion
    /// does.
    pub fn insert_channels(&mut self, descs: &[ChannelDesc], record_len: usize, data: &[u32]) -> (
    r: Result<()>)
        ensures
            r is Ok <==> insert_channels_accepted(
                old(self).frame_buffer,
                descs@,
                record_len as int,
                data@,
            ),
            r is Err ==> *final(self) == *old(self),
            r is Ok ==> {
                &&& final(self).frame_buffer.slices@.len() == old(self).frame_buffer.slices@.len()
                    + descs@.len()
                &&& forall|i: int|
                    0 <= i < old(self).frame_buffer.slices@.len() ==> final(self).frame_buffer.slices@[i] == old(self).frame_buffer.slices@[i]
                &&& forall|i: int|
                    0 <= i < descs@.len() ==> inserted_slice_matches(
                        #[trigger] final(self).frame_buffer.slices@[old(self).frame_buffer.slices@.len() + i],
                        descs@[i],
                        data@,
                        record_len as int,
                        old(self).frame_buffer.spec_pixel_count(),
                    )
                &&& final(self).frame_buffer == (FrameBuffer {
                    slices: final(self).frame_buffer.slices,
                    ..old(self).frame_buffer
                })
            },
            old(self).wf() && r is Ok ==> final(self).wf(),
    {
        self.frame_buffer.insert_channels(descs, record_len, data)
    }
}

/// Whether a multi-channel insertion is accepted: the interleaved buffer has
/// the right length, every offset lies inside the record, and the names are
/// new and pairwise distinct.
pub open spec fn insert_channels_accepted(
    fb: FrameBuffer,
    descs: Seq<ChannelDesc>,
    record_len: int,
    data: Seq<u32>,
) -> bool {
    &&& record_len >= 1
    &&& data.len() == fb.spec_pixel_count() * record_len
    &&& forall|k: int| 0 <= k < descs.len() ==> (#[trigger] descs[k]).offset < record_len
    &&& forall|k: int| 0 <= k < descs.len() ==> !fb.spec_has_channel((#[trigger] descs[k]).name@)
    &&& forall|k: int, l: int|
        0 <= k < l < descs.len() ==> (#[trigger] descs[k]).name@ != (#[trigger] descs[l]).name@
}

/// Whether a registered slice is the one a channel description asked for:
/// same name, encoding and fill, full resolution, and its samples gathered
/// from the description's slot of the interleaved buffer.
pub open spec fn inserted_slice_matches(
    s: ChannelSlice,
    d: ChannelDesc,
    data: Seq<u32>,
    record_len: int,
    count: int,
) -> bool {
    &&& s.name@ == d.name@
    &&& s.pixel_type == d.pixel_type
    &&& s.x_sampling == 1i32
    &&& s.y_sampling == 1i32
    &&& s.fill == d.fill
    &&& s.data@ == gather_interleaved(data, record_len, d.offset as int, count)
}

/// Division undoes an exact multiplication.
proof fn lemma_mul_div_exact(a: int, b: int)
    requires
        a >= 0,
        b >= 1,
    ensures
        (a * b) / b == a,
{
    vstd::arithmetic::div_mod::lemma_div_multiples_vanish(a, b);
}

/// Copies every sample at the given record slot out of a buffer of
/// interleaved pixel records.
fn gather_channel(data: &[u32], record_len: usize, offset: usize, count: usize) -> (r: Vec<u32>)
    requires
        record_len >= 1,
        offset < record_len,
        data@.len() == count * record_len,
    ensures
        r@ == gather_interleaved(data@, record_len as int, offset as int, count as int),
{
    let dlen: usize = data.len();
    let mut r: Vec<u32> = Vec::new();
    let mut p: usize = 0;
    while p < count
        invariant
            p <= count,
            record_len >= 1,
            offset < record_len,
            data@.len() == count * record_len,
            dlen == data@.len(),
            r@.len() == p,
            forall|q: int| 0 <= q < p ==> r@[q] == data@[q * record_len + offset],
        decreases count - p,
    {
        proof {
            assert((p as int) * (record_len as int) + offset < (count as int) * (
            record_len as int)) by (nonlinear_arith)
                requires
                    p < count,
                    offset < record_len,
                    record_len >= 1,
            ;
            assert((p as int) * (record_len as int) + offset < dlen);
        }
        r.push(data[p * record_len + offset]);
        p = p + 1;
    }
    proof {
        assert(r@ =~= gather_interleaved(data@, record_len as int, offset as int, count as int));
    }
    r
}

} // verus!
