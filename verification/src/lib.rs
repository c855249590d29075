//! The descriptor layer of a scanline OpenEXR image pipeline: typed headers,
//! channel descriptors, frame buffers that describe where each named
//! channel's samples live, and input/output handles whose read and write
//! operations validate geometry and channel compatibility before touching
//! any pixel data.  Container encoding and decoding belong to the codec that
//! consumes these descriptors, not to this crate.
//!
//! Pixel samples are carried as their raw bit patterns (`u32`), so one sample
//! representation serves the unsigned-integer, half-float and float channel
//! types alike.

mod channel;
mod error;
mod frame_buffer;
mod geometry;
mod header;
mod image;
mod input;
mod lemmas;
mod output;
mod pixel;
mod stream;
mod threads;

pub use channel::Channel;
pub use channel::PixelType;
pub use error::Error;
pub use error::Result;
pub use frame_buffer::gather_interleaved;
pub use frame_buffer::ChannelDesc;
pub use frame_buffer::ChannelSlice;
pub use frame_buffer::insert_channels_accepted;
pub use frame_buffer::inserted_slice_matches;
pub use frame_buffer::FrameBuffer;
pub use frame_buffer::FrameBufferMut;
pub use geometry::Box2i;
pub use geometry::V2i;
pub use header::input_compatible;
pub use header::output_compatible;
pub use header::Compression;
pub use header::Envmap;
pub use header::Header;
pub use header::LineOrder;
pub use image::ImageData;
pub use input::filled;
pub use input::full_read_accepted;
pub use input::partial_read_accepted;
pub use input::read_transition;
pub use input::scattered_slice_data;
pub use input::slice_scattered;
pub use input::InputFile;
pub use lemmas::lemma_incremental_write_completeness;
pub use lemmas::lemma_incremental_writes_accumulate;
pub use lemmas::lemma_sum_heights_nonneg;
pub use lemmas::lemma_partial_reads_cover_full_read;
pub use lemmas::lemma_write_read_round_trip;
pub use output::full_write_accepted;
pub use output::full_write_transition;
pub use output::incremental_write_accepted;
pub use output::incremental_write_transition;
pub use output::source_channel_data;
pub use output::chunks_channel_data;
pub use output::incremental_writes_transition;
pub use output::spec_chunk;
pub use output::sum_heights;
pub use output::ScanlineOutputFile;
pub use pixel::channel_layout_of;
pub use pixel::PixelData;
pub use pixel::PixelStruct;
pub use stream::stream_written;
pub use stream::StreamWriter;
pub use threads::set_global_thread_count;
