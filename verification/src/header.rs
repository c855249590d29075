//! Header and related types.
//!
//! The header describes the declarative properties of an image: its display
//! and data windows, compression and line order, and the list of channels it
//! contains.  It is used both for defining the properties of an image to be
//! written and for inspecting an image that was read.

use vstd::prelude::*;

use crate::channel::Channel;
use crate::channel::PixelType;
use crate::error::Error;
use crate::error::Result;
use crate::frame_buffer::FrameBuffer;
use crate::frame_buffer::FrameBufferMut;
use crate::geometry::Box2i;
use crate::geometry::V2i;

verus! {

/// Order in which scanlines are stored.
#[allow(non_camel_case_types)]
#[derive(Debug, Clone, Copy, PartialEq, Eq, Structural)]
pub enum LineOrder {
    /// The first scanline has the lowest y coordinate.
    INCREASING_Y,
    /// The first scanline has the highest y coordinate.
    DECREASING_Y,
    /// Only for tiled images; tiles are stored in arbitrary order.
    RANDOM_Y,
}

/// Compression method recorded in a header.
///
/// The descriptor layer only carries the choice; the codec that consumes the
/// header decides what to do with it.
#[allow(non_camel_case_types)]
#[derive(Debug, Clone, Copy, PartialEq, Eq, Structural)]
pub enum Compression {
    /// No compression.
    NO_COMPRESSION,
    /// Run-length encoding.
    RLE_COMPRESSION,
    /// Zlib compression, one scanline at a time.
    ZIPS_COMPRESSION,
    /// Zlib compression, in blocks of scanlines.
    ZIP_COMPRESSION,
    /// Piz-based wavelet compression.
    PIZ_COMPRESSION,
    /// Lossy 24-bit float compression.
    PXR24_COMPRESSION,
    /// Lossy 4-by-4 pixel block compression with a fixed rate.
    B44_COMPRESSION,
    /// Lossy 4-by-4 pixel block compression; flat fields compress more.
    B44A_COMPRESSION,
    /// Lossy DCT-based compression in small blocks of scanlines.
    DWAA_COMPRESSION,
    /// Lossy DCT-based compression in large blocks of scanlines.
    DWAB_COMPRESSION,
}

/// Types of environment maps.
#[derive(Debug, Clone, Copy, PartialEq, Eq, Structural)]
pub enum Envmap {
    /// Latitude-longitude projection.
    LatLong,
    /// Cubemap.
    Cube,
}

/// The declarative properties of an image.
///
/// Floating-point attributes (pixel aspect ratio, screen window center and
/// width) are carried as the raw bit patterns of their 32-bit float values,
/// so that the descriptor layer itself stays within integer arithmetic.
#[derive(Debug)]
pub struct Header {
    /// The logical canvas rectangle.
    pub display_window: Box2i,
    /// The rectangle of pixels actually stored; its origin may be non-zero
    /// or negative.
    pub data_window: Box2i,
    /// Bit pattern of the pixel aspect ratio (a 32-bit float).
    pub pixel_aspect_ratio_bits: u32,
    /// Bit patterns of the screen window center coordinates.
    pub screen_window_center_bits: (u32, u32),
    /// Bit pattern of the screen window width.
    pub screen_window_width_bits: u32,
    /// Order in which scanlines are stored.
    pub line_order: LineOrder,
    /// Compression method.
    pub compression: Compression,
    /// Named channels, in insertion order; names are unique.
    pub channels: Vec<(String, Channel)>,
    /// Environment-map attribute, if declared.
    pub envmap: Option<Envmap>,
    /// Multiview view names, if declared.
    pub multiview: Option<Vec<String>>,
}

/// Bit pattern of the 32-bit float value one.
pub const FLOAT_ONE_BITS: u32 = 0x3F80_0000;

impl Header {
    /// No two channels share a name.
    pub open spec fn channel_names_unique(&self) -> bool {
        forall|i: int, j: int|
            0 <= i < j < self.channels@.len() ==> (#[trigger] self.channels@[i]).0@ != (
            #[trigger] self.channels@[j]).0@
    }

    /// Well-formedness: both windows are valid and every channel is valid
    /// under a unique name.
    pub open spec fn wf(&self) -> bool {
        &&& self.display_window.wf()
        &&& self.data_window.wf()
        &&& self.channel_names_unique()
        &&& forall|i: int| 0 <= i < self.channels@.len() ==> (#[trigger] self.channels@[i]).1.wf()
    }

    /// Whether a channel of the given name is declared.
    pub open spec fn spec_has_channel(&self, name: Seq<char>) -> bool {
        exists|i: int| 0 <= i < self.channels@.len() && (#[trigger] self.channels@[i]).0@ == name
    }

    /// Position of the channel of the given name in the channel list.
    pub open spec fn spec_channel_index(&self, name: Seq<char>) -> int {
        choose|i: int| 0 <= i < self.channels@.len() && (#[trigger] self.channels@[i]).0@ == name
    }

    /// The channel declared under the given name.
    pub open spec fn spec_channel(&self, name: Seq<char>) -> Channel {
        self.channels@[self.spec_channel_index(name)].1
    }

    /// Width of the data window.
    pub open spec fn spec_data_width(&self) -> int {
        self.data_window.spec_width()
    }

    /// Height of the data window.
    pub open spec fn spec_data_height(&self) -> int {
        self.data_window.spec_height()
    }

    /// With unique names, the channel index of a name is the only position
    /// holding that name.
    pub proof fn lemma_channel_index_agrees(&self, name: Seq<char>, i: int)
        requires
            self.channel_names_unique(),
            0 <= i < self.channels@.len(),
            self.channels@[i].0@ == name,
        ensures
            self.spec_has_channel(name),
            self.spec_channel_index(name) == i,
    {
        assert(self.spec_has_channel(name));
        let j = self.spec_channel_index(name);
        if i < j {
            assert(self.channels@[i].0@ != self.channels@[j].0@);
        } else if j < i {
            assert(self.channels@[j].0@ != self.channels@[i].0@);
        }
    }

    /// Creates a new header with default values: a two-by-two-pixel window
    /// at the origin for both display and data, unit aspect ratio and screen
    /// window, increasing line order, piz compression, and no channels.
    pub fn new() -> (r: Header)
        ensures
            r.display_window == (Box2i {
                min: V2i { x: 0i32, y: 0i32 },
                max: V2i { x: 1i32, y: 1i32 },
            }),
            r.data_window == r.display_window,
            r.pixel_aspect_ratio_bits == FLOAT_ONE_BITS,
            r.screen_window_center_bits == (0u32, 0u32),
            r.screen_window_width_bits == FLOAT_ONE_BITS,
            r.line_order == LineOrder::INCREASING_Y,
            r.compression == Compression::PIZ_COMPRESSION,
            r.channels@.len() == 0,
            r.envmap is None,
            r.multiview is None,
            r.wf(),
    {
        let window = Box2i { min: V2i { x: 0, y: 0 }, max: V2i { x: 1, y: 1 } };
        Header {
            display_window: window,
            data_window: window,
            pixel_aspect_ratio_bits: FLOAT_ONE_BITS,
            screen_window_center_bits: (0, 0),
            screen_window_width_bits: FLOAT_ONE_BITS,
            line_order: LineOrder::INCREASING_Y,
            compression: Compression::PIZ_COMPRESSION,
            channels: Vec::new(),
            envmap: None,
            multiview: None,
        }
    }

    /// Sets both the display window and the data window to a rectangle of
    /// the given size anchored at the origin.
    ///
    /// Fails if either dimension is zero or too large for the window's
    /// signed coordinates.
    pub fn set_resolution(self, width: u32, height: u32) -> (r: Result<Header>)
        ensures
            r is Ok <==> (1 <= width <= i32::MAX && 1 <= height <= i32::MAX),
            r matches Ok(h) ==> h == (Header {
                display_window: Box2i {
                    min: V2i { x: 0i32, y: 0i32 },
                    max: V2i { x: (width - 1) as i32, y: (height - 1) as i32 },
                },
                data_window: Box2i {
                    min: V2i { x: 0i32, y: 0i32 },
                    max: V2i { x: (width - 1) as i32, y: (height - 1) as i32 },
                },
                ..self
            }),
    {
        if width < 1 || height < 1 || width > i32::MAX as u32 || height > i32::MAX as u32 {
            return Err(Error::Generic("resolution does not fit a data window".to_owned()));
        }
        let window = Box2i {
            min: V2i { x: 0, y: 0 },
            max: V2i { x: (width - 1) as i32, y: (height - 1) as i32 },
        };
        Ok(Header { display_window: window, data_window: window, ..self })
    }

    /// Sets the display window.  Fails if the window is not well formed.
    pub fn set_display_window(self, window: Box2i) -> (r: Result<Header>)
        ensures
            r is Ok <==> window.wf(),
            r matches Ok(h) ==> h == (Header { display_window: window, ..self }),
    {
        if !window.is_well_formed() {
            return Err(Error::Generic("display window is not well formed".to_owned()));
        }
        Ok(Header { display_window: window, ..self })
    }

    /// Sets the data window.  Fails if the window is not well formed.
    pub fn set_data_window(self, window: Box2i) -> (r: Result<Header>)
        ensures
            r is Ok <==> window.wf(),
            r matches Ok(h) ==> h == (Header { data_window: window, ..self }),
    {
        if !window.is_well_formed() {
            return Err(Error::Generic("data window is not well formed".to_owned()));
        }
        Ok(Header { data_window: window, ..self })
    }

    /// Sets the pixel aspect ratio, given as the bit pattern of a 32-bit
    /// float.
    pub fn set_pixel_aspect_ratio(self, aspect_ratio_bits: u32) -> (r: Header)
        ensures
            r == (Header { pixel_aspect_ratio_bits: aspect_ratio_bits, ..self }),
    {
        Header { pixel_aspect_ratio_bits: aspect_ratio_bits, ..self }
    }

    /// Sets the screen window center, given as the bit patterns of two
    /// 32-bit floats.
    pub fn set_screen_window_center(self, center_bits: (u32, u32)) -> (r: Header)
        ensures
            r == (Header { screen_window_center_bits: center_bits, ..self }),
    {
        Header { screen_window_center_bits: center_bits, ..self }
    }

    /// Sets the screen window width, given as the bit pattern of a 32-bit
    /// float.
    pub fn set_screen_window_width(self, width_bits: u32) -> (r: Header)
        ensures
            r == (Header { screen_window_width_bits: width_bits, ..self }),
    {
        Header { screen_window_width_bits: width_bits, ..self }
    }

    /// Sets the line order.
    pub fn set_line_order(self, line_order: LineOrder) -> (r: Header)
        ensures
            r == (Header { line_order, ..self }),
    {
        Header { line_order, ..self }
    }

    /// Sets the compression method.
    pub fn set_compression(self, compression: Compression) -> (r: Header)
        ensures
            r == (Header { compression, ..self }),
    {
        Header { compression, ..self }
    }

    /// Adds a full-resolution channel of the given type under the given
    /// name.  Fails if a channel of that name is already declared.
    pub fn add_channel(self, name: &str, pixel_type: PixelType) -> (r: Result<Header>)
        ensures
            r is Ok <==> !self.spec_has_channel(name@),
            r matches Ok(h) ==> {
                &&& h.channels@.len() == self.channels@.len() + 1
                &&& forall|i: int|
                    0 <= i < self.channels@.len() ==> h.channels@[i] == self.channels@[i]
                &&& h.channels@.last().0@ == name@
                &&& h.channels@.last().1 == (Channel {
                    pixel_type,
                    x_sampling: 1i32,
                    y_sampling: 1i32,
                    p_linear: true,
                })
                &&& h == (Header { channels: h.channels, ..self })
            },
    {
        self.add_channel_detailed(name, Channel::full_resolution(pixel_type))
    }

    /// Adds a channel with full details under the given name.
    ///
    /// Fails if the channel's subsampling factors are not positive or if a
    /// channel of that name is already declared.
    pub fn add_channel_detailed(self, name: &str, channel: Channel) -> (r: Result<Header>)
        ensures
            r is Ok <==> (channel.wf() && !self.spec_has_channel(name@)),
            r matches Ok(h) ==> {
                &&& h.channels@.len() == self.channels@.len() + 1
                &&& forall|i: int|
                    0 <= i < self.channels@.len() ==> h.channels@[i] == self.channels@[i]
                &&& h.channels@.last().0@ == name@
                &&& h.channels@.last().1 == channel
                &&& h == (Header { channels: h.channels, ..self })
            },
    {
        if channel.x_sampling < 1 || channel.y_sampling < 1 {
            return Err(Error::Generic("channel subsampling factors must be positive".to_owned()));
        }
        let key: String = name.to_owned();
        if self.find_channel(&key).is_some() {
            return Err(Error::Generic("a channel of this name is already declared".to_owned()));
        }
        let mut channels = self.channels;
        channels.push((key, channel));
        Ok(Header { channels, ..self })
    }

    /// Position of the channel of the given name, if declared.
    pub(crate) fn find_channel(&self, name: &String) -> (r: Option<usize>)
        ensures
            match r {
                Some(i) => i < self.channels@.len() && self.channels@[i as int].0@ == name@,
                None => !self.spec_has_channel(name@),
            },
    {
        let n = self.channels.len();
        let mut i: usize = 0;
        while i < n
            invariant
                i <= n,
                n == self.channels@.len(),
                forall|j: int| 0 <= j < i ==> (#[trigger] self.channels@[j]).0@ != name@,
            decreases n - i,
        {
            if self.channels[i].0 == *name {
                return Some(i);
            }
            i = i + 1;
        }
        None
    }

    /// The origin (minimum corner) of the data window.
    pub fn data_origin(&self) -> (r: (i32, i32))
        ensures
            r.0 == self.data_window.min.x,
            r.1 == self.data_window.min.y,
    {
        (self.data_window.min.x, self.data_window.min.y)
    }

    /// The dimensions of the data window.
    pub fn data_dimensions(&self) -> (r: (u32, u32))
        requires
            self.wf(),
        ensures
            r.0 == self.spec_data_width(),
            r.1 == self.spec_data_height(),
    {
        (self.data_window.width(), self.data_window.height())
    }

    /// The data window.
    pub fn data_window(&self) -> (r: Box2i)
        ensures
            r == self.data_window,
    {
        self.data_window
    }

    /// The display window.
    pub fn display_window(&self) -> (r: Box2i)
        ensures
            r == self.display_window,
    {
        self.display_window
    }

    /// The channels declared by the header, in insertion order.
    pub fn channels(&self) -> (r: &Vec<(String, Channel)>)
        ensures
            r@ == self.channels@,
    {
        &self.channels
    }

    /// Looks a channel up by name; absence is distinct from presence with a
    /// differing description.
    pub fn get_channel(&self, name: &str) -> (r: Option<&Channel>)
        requires
            self.wf(),
        ensures
            match r {
                Some(c) => self.spec_has_channel(name@) && *c == self.spec_channel(name@),
                None => !self.spec_has_channel(name@),
            },
    {
        let key: String = name.to_owned();
        match self.find_channel(&key) {
            Some(i) => {
                proof {
                    self.lemma_channel_index_agrees(name@, i as int);
                }
                Some(&self.channels[i].1)
            },
            None => None,
        }
    }

    /// The environment-map attribute, if declared.
    pub fn envmap(&self) -> (r: Option<Envmap>)
        ensures
            r == self.envmap,
    {
        self.envmap
    }

    /// Declares or erases the environment-map attribute.
    pub fn set_envmap(self, envmap: Option<Envmap>) -> (r: Header)
        ensures
            r == (Header { envmap, ..self }),
    {
        Header { envmap, ..self }
    }

    /// The list of view names, if declared.
    pub fn multiview(&self) -> (r: Option<&Vec<String>>)
        ensures
            match r {
                Some(v) => self.multiview matches Some(m) && v@ == m@,
                None => self.multiview is None,
            },
    {
        self.multiview.as_ref()
    }

    /// Declares or erases the list of view names.
    pub fn set_multiview(self, views: Option<Vec<String>>) -> (r: Header)
        ensures
            r == (Header { multiview: views, ..self }),
    {
        Header { multiview: views, ..self }
    }

    /// Builds a window from its origin (minimum corner) and size.
    pub fn box2i(x: i32, y: i32, width: u32, height: u32) -> (r: Box2i)
        requires
            1 <= width,
            1 <= height,
            x + width - 1 <= i32::MAX,
            y + height - 1 <= i32::MAX,
        ensures
            r.min == (V2i { x, y }),
            r.max.x == x + width - 1,
            r.max.y == y + height - 1,
            r.wf(),
    {
        Box2i {
            min: V2i { x, y },
            max: V2i {
                x: ((x as i64) + (width as i64) - 1) as i32,
                y: ((y as i64) + (height as i64) - 1) as i32,
            },
        }
    }
}

/// Whether a frame buffer supplies every channel a header declares, with a
/// matching sample encoding and subsampling for each: the validation rule
/// for writing.
pub open spec fn output_compatible(h: Header, fb: FrameBuffer) -> bool {
    forall|i: int|
        0 <= i < h.channels@.len() ==> {
            &&& fb.spec_has_channel((#[trigger] h.channels@[i]).0@)
            &&& fb.slices@[fb.spec_channel_index(h.channels@[i].0@)].spec_compatible_with(
                h.channels@[i].1,
            )
        }
}

/// Whether every channel shared between a header and a frame buffer has a
/// matching sample encoding and subsampling: the validation rule for
/// reading.  Channels present on only one side are tolerated.
pub open spec fn input_compatible(h: Header, fb: FrameBuffer) -> bool {
    forall|i: int|
        0 <= i < h.channels@.len() ==> (fb.spec_has_channel((#[trigger] h.channels@[i]).0@)
            ==> fb.slices@[fb.spec_channel_index(h.channels@[i].0@)].spec_compatible_with(
            h.channels@[i].1,
        ))
}

impl Header {
    /// Checks that the frame buffer supplies every channel this header
    /// declares, with a matching sample encoding and subsampling; a missing
    /// or mismatched channel is reported as an error.
    pub fn validate_framebuffer_for_output(&self, framebuffer: &FrameBuffer) -> (r: Result<()>)
        requires
            framebuffer.slice_names_unique(),
        ensures
            r is Ok <==> output_compatible(*self, *framebuffer),
    {
        let n = self.channels.len();
        let mut i: usize = 0;
        while i < n
            invariant
                i <= n,
                n == self.channels@.len(),
                framebuffer.slice_names_unique(),
                forall|k: int|
                    0 <= k < i ==> {
                        &&& framebuffer.spec_has_channel((#[trigger] self.channels@[k]).0@)
                        &&& framebuffer.slices@[framebuffer.spec_channel_index(
                            self.channels@[k].0@,
                        )].spec_compatible_with(self.channels@[k].1)
                    },
            decreases n - i,
        {
            match framebuffer.find_slice(&self.channels[i].0) {
                None => {
                    return Err(Error::Generic(
                        "the frame buffer is missing a channel the header declares: ".to_owned().concat(
                            self.channels[i].0.as_str(),
                        ),
                    ));
                },
                Some(j) => {
                    proof {
                        framebuffer.lemma_channel_index_agrees(
                            self.channels@[i as int].0@,
                            j as int,
                        );
                    }
                    let s = &framebuffer.slices[j];
                    let ch = &self.channels[i].1;
                    if s.pixel_type != ch.pixel_type || s.x_sampling != ch.x_sampling
                        || s.y_sampling != ch.y_sampling {
                        return Err(Error::Generic(
                            "the header and the frame buffer disagree on channel: ".to_owned().concat(
                                self.channels[i].0.as_str(),
                            ),
                        ));
                    }
                },
            }
            i = i + 1;
        }
        Ok(())
    }

    /// Checks that every channel shared between this header and the frame
    /// buffer has a matching sample encoding and subsampling; channels
    /// present on only one side are tolerated.
    pub fn validate_framebuffer_for_input(&self, framebuffer: &FrameBufferMut) -> (r: Result<()>)
        requires
            framebuffer.frame_buffer.slice_names_unique(),
        ensures
            r is Ok <==> input_compatible(*self, framebuffer.frame_buffer),
    {
        let fb = &framebuffer.frame_buffer;
        let n = self.channels.len();
        let mut i: usize = 0;
        while i < n
            invariant
                i <= n,
                n == self.channels@.len(),
                fb == &framebuffer.frame_buffer,
                fb.slice_names_unique(),
                forall|k: int|
                    0 <= k < i ==> (fb.spec_has_channel((#[trigger] self.channels@[k]).0@)
                        ==> fb.slices@[fb.spec_channel_index(
                        self.channels@[k].0@,
                    )].spec_compatible_with(self.channels@[k].1)),
            decreases n - i,
        {
            match fb.find_slice(&self.channels[i].0) {
                None => {},
                Some(j) => {
                    proof {
                        fb.lemma_channel_index_agrees(self.channels@[i as int].0@, j as int);
                    }
                    let s = &fb.slices[j];
                    let ch = &self.channels[i].1;
                    if s.pixel_type != ch.pixel_type || s.x_sampling != ch.x_sampling
                        || s.y_sampling != ch.y_sampling {
                        return Err(Error::Generic(
                            "the header and the frame buffer disagree on channel: ".to_owned().concat(
                                self.channels[i].0.as_str(),
                            ),
                        ));
                    }
                },
            }
            i = i + 1;
        }
        Ok(())
    }
}

impl Default for Header {
    /// The same header as [`Header::new`].
    fn default() -> (r: Header)
        ensures
            r.display_window == (Box2i {
                min: V2i { x: 0i32, y: 0i32 },
                max: V2i { x: 1i32, y: 1i32 },
            }),
            r.data_window == r.display_window,
            r.pixel_aspect_ratio_bits == FLOAT_ONE_BITS,
            r.screen_window_center_bits == (0u32, 0u32),
            r.screen_window_width_bits == FLOAT_ONE_BITS,
            r.line_order == LineOrder::INCREASING_Y,
            r.compression == Compression::PIZ_COMPRESSION,
            r.channels@.len() == 0,
            r.envmap is None,
            r.multiview is None,
            r.wf(),
    {
        Header::new()
    }
}

} // verus!
