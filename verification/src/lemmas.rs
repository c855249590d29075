//! Guarantees that tie the write and read paths together.

use vstd::prelude::*;

use crate::frame_buffer::ChannelSlice;
use crate::frame_buffer::FrameBuffer;
use crate::header::output_compatible;
use crate::image::ImageData;
use crate::input::full_read_accepted;
use crate::input::read_transition;
use crate::input::scattered_slice_data;
use crate::output::full_write_accepted;
use crate::output::full_write_transition;
use crate::output::chunks_channel_data;
use crate::output::incremental_write_accepted;
use crate::output::incremental_write_transition;
use crate::output::incremental_writes_transition;
use crate::output::spec_chunk;
use crate::output::sum_heights;
use crate::output::source_channel_data;
use crate::output::ScanlineOutputFile;

verus! {

/// Round trip: when a full-image write accepts a source frame buffer and the
/// image it completes is read back in full into a destination frame buffer,
/// every destination channel that the header declares comes back holding
/// exactly the samples the source supplied for it, pixel for pixel.
pub proof fn lemma_write_read_round_trip(
    out0: ScanlineOutputFile,
    src: FrameBuffer,
    out1: ScanlineOutputFile,
    img: ImageData,
    dst0: FrameBuffer,
    dst1: FrameBuffer,
)
    requires
        out0.wf(),
        src.wf(),
        full_write_accepted(out0, src),
        full_write_transition(out0, src, out1),
        img == (ImageData { header: out1.header, samples: out1.samples }),
        dst0.wf(),
        full_read_accepted(img, dst0),
        read_transition(img, dst0, dst1, 0, img.header.spec_data_height()),
    ensures
        forall|j: int|
            0 <= j < dst0.slices@.len() && img.header.spec_has_channel(
                (#[trigger] dst0.slices@[j]).name@,
            ) ==> dst1.slices@[j].data@ == src.slices@[src.spec_channel_index(
                dst0.slices@[j].name@,
            )].data@,
{
    let h = out0.header;
    let wi = h.spec_data_width();
    let hi = h.spec_data_height();
    assert forall|j: int|
        0 <= j < dst0.slices@.len() && img.header.spec_has_channel(
            (#[trigger] dst0.slices@[j]).name@,
        ) implies dst1.slices@[j].data@ == src.slices@[src.spec_channel_index(
        dst0.slices@[j].name@,
    )].data@ by {
        let name = dst0.slices@[j].name@;
        let hidx = img.header.spec_channel_index(name);
        assert(img.header.channels@[hidx].0@ == name);
        assert(output_compatible(h, src));
        assert(src.spec_has_channel(name) && src.slices@[src.spec_channel_index(
            name,
        )].spec_compatible_with(h.channels@[hidx].1));
        let src_data = src.slices@[src.spec_channel_index(name)].data@;
        assert(img.samples@[hidx]@ == source_channel_data(h, src, hidx));
        assert(source_channel_data(h, src, hidx) == src_data);
        assert(src_data.len() == src.spec_pixel_count());
        assert((src.width as int) * (src.height as int) == (src.height as int) * (
        src.width as int)) by (nonlinear_arith);
        assert(img.spec_samples_of(name) == img.samples@[hidx]@);
        assert(dst1.slices@[j].data@ == img.spec_samples_of(name).subrange(0 * wi, (0 + hi) * wi)
            + dst0.slices@[j].data@.skip(hi * wi));
        assert(0 * wi == 0) by (nonlinear_arith);
        assert((0 + hi) * wi == hi * wi) by (nonlinear_arith);
        assert(hi * wi == wi * hi) by (nonlinear_arith);
        assert(dst0.slices@[j].data@.len() == dst0.spec_pixel_count());
        assert(dst0.slices@[j].data@.skip(hi * wi) =~= Seq::<u32>::empty());
        assert(src_data.len() == wi * hi);
        assert(img.spec_samples_of(name).subrange(0, hi * wi) =~= src_data);
        assert(dst1.slices@[j].data@ =~= src_data);
    }
}

/// The total height of a chunk sequence is never negative.
pub proof fn lemma_sum_heights_nonneg(chunks: Seq<FrameBuffer>)
    ensures
        sum_heights(chunks) >= 0,
    decreases chunks.len(),
{
    if chunks.len() > 0 {
        lemma_sum_heights_nonneg(chunks.skip(1));
    }
}

/// Incremental writes accumulate: a sequence of accepted incremental writes
/// whose chunk heights exactly cover what remains of the image advances the
/// scanline counter by the total height and extends each channel's buffer by
/// the chunks' samples for that channel, concatenated in order.
pub proof fn lemma_incremental_writes_accumulate(
    pre: ScanlineOutputFile,
    chunks: Seq<FrameBuffer>,
    post: ScanlineOutputFile,
)
    requires
        incremental_writes_transition(pre, chunks, post),
        sum_heights(chunks) == pre.header.spec_data_height() - pre.scanlines_written,
        pre.samples@.len() == pre.header.channels@.len(),
    ensures
        post.header == pre.header,
        post.scanlines_written == pre.scanlines_written + sum_heights(chunks),
        post.samples@.len() == pre.samples@.len(),
        forall|i: int|
            0 <= i < pre.samples@.len() ==> (#[trigger] post.samples@[i])@ == pre.samples@[i]@
                + chunks_channel_data(pre.header, chunks, i),
    decreases chunks.len(),
{
    let h = pre.header;
    if chunks.len() == 0 {
        assert forall|i: int| 0 <= i < pre.samples@.len() implies (#[trigger] post.samples@[i])@
            == pre.samples@[i]@ + chunks_channel_data(h, chunks, i) by {
            assert(pre.samples@[i]@ + Seq::<u32>::empty() =~= pre.samples@[i]@);
        }
    } else {
        let c0 = chunks[0];
        let mid = choose|mid: ScanlineOutputFile|
            {
                &&& c0.wf()
                &&& incremental_write_accepted(pre, c0)
                &&& #[trigger] incremental_write_transition(pre, c0, mid)
                &&& incremental_writes_transition(mid, chunks.skip(1), post)
            };
        lemma_sum_heights_nonneg(chunks.skip(1));
        let chunk = spec_chunk(pre, c0);
        assert(chunk == c0.height);
        assert(mid.scanlines_written == pre.scanlines_written + c0.height);
        lemma_incremental_writes_accumulate(mid, chunks.skip(1), post);
        let wi = h.spec_data_width();
        assert forall|i: int| 0 <= i < pre.samples@.len() implies (#[trigger] post.samples@[i])@
            == pre.samples@[i]@ + chunks_channel_data(h, chunks, i) by {
            let d0 = source_channel_data(h, c0, i);
            assert(mid.samples@[i]@ == pre.samples@[i]@ + d0.take(chunk * wi));
            assert(post.samples@[i]@ == mid.samples@[i]@ + chunks_channel_data(
                h,
                chunks.skip(1),
                i,
            ));
            assert(output_compatible(h, c0));
            assert(c0.spec_has_channel(h.channels@[i].0@));
            assert(d0.len() == c0.spec_pixel_count());
            assert((c0.width as int) * (c0.height as int) == (c0.height as int) * (
            c0.width as int)) by (nonlinear_arith);
            assert(d0.take(chunk * wi) =~= d0);
            assert(pre.samples@[i]@ + d0 + chunks_channel_data(h, chunks.skip(1), i)
                =~= pre.samples@[i]@ + (d0 + chunks_channel_data(h, chunks.skip(1), i)));
            assert(chunks_channel_data(h, chunks, i) == d0 + chunks_channel_data(
                h,
                chunks.skip(1),
                i,
            ));
        }
    }
}

/// Incremental write completeness: writing an image in scanline chunks whose
/// heights cover its height leaves behind exactly what one full-image write
/// leaves behind, when the full source carries, channel for channel, the
/// chunks' samples concatenated in order.
pub proof fn lemma_incremental_write_completeness(
    out0: ScanlineOutputFile,
    chunks: Seq<FrameBuffer>,
    outn: ScanlineOutputFile,
    full: FrameBuffer,
    outf: ScanlineOutputFile,
)
    requires
        out0.wf(),
        full.wf(),
        out0.scanlines_written == 0,
        incremental_writes_transition(out0, chunks, outn),
        sum_heights(chunks) == out0.header.spec_data_height(),
        full_write_accepted(out0, full),
        full_write_transition(out0, full, outf),
        forall|i: int|
            0 <= i < out0.header.channels@.len() ==> #[trigger] source_channel_data(
                out0.header,
                full,
                i,
            ) == chunks_channel_data(out0.header, chunks, i),
    ensures
        outn.scanlines_written == outf.scanlines_written,
        outn.samples@.len() == outf.samples@.len(),
        forall|i: int|
            0 <= i < outn.samples@.len() ==> (#[trigger] outn.samples@[i])@ == outf.samples@[i]@,
{
    let h = out0.header;
    lemma_incremental_writes_accumulate(out0, chunks, outn);
    let wi = h.spec_data_width();
    assert(wi * 0 == 0) by (nonlinear_arith);
    assert forall|i: int| 0 <= i < outn.samples@.len() implies (#[trigger] outn.samples@[i])@
        == outf.samples@[i]@ by {
        assert(out0.samples@[i]@.len() == wi * 0);
        assert(outn.samples@[i]@ == out0.samples@[i]@ + chunks_channel_data(h, chunks, i));
        assert(out0.samples@[i]@ + chunks_channel_data(h, chunks, i) =~= chunks_channel_data(
            h,
            chunks,
            i,
        ));
        assert(outf.samples@[i]@ == source_channel_data(h, full, i));
    }
}

/// One full read equals stacked partial reads: for one channel, the buffer
/// a full-height read fills holds exactly what two partial reads covering
/// the image fill into two stacked buffers of the same name and fill value.
pub proof fn lemma_partial_reads_cover_full_read(
    img: ImageData,
    s_full: ChannelSlice,
    s_a: ChannelSlice,
    s_b: ChannelSlice,
    h1: int,
    h2: int,
)
    requires
        img.wf(),
        s_a.name@ == s_full.name@,
        s_b.name@ == s_full.name@,
        s_a.fill == s_full.fill,
        s_b.fill == s_full.fill,
        h1 >= 0,
        h2 >= 0,
        h1 + h2 == img.header.spec_data_height(),
        s_full.data@.len() == (h1 + h2) * img.header.spec_data_width(),
        s_a.data@.len() == h1 * img.header.spec_data_width(),
        s_b.data@.len() == h2 * img.header.spec_data_width(),
    ensures
        scattered_slice_data(img, s_full, 0, h1 + h2) == scattered_slice_data(img, s_a, 0, h1)
            + scattered_slice_data(img, s_b, h1, h2),
{
    let wi = img.header.spec_data_width();
    let hi = img.header.spec_data_height();
    assert((h1 + h2) * wi == h1 * wi + h2 * wi) by (nonlinear_arith);
    assert(h1 * wi >= 0 && h2 * wi >= 0) by (nonlinear_arith)
        requires
            h1 >= 0,
            h2 >= 0,
            wi >= 0,
    ;
    assert(s_full.data@.skip((h1 + h2) * wi) =~= Seq::<u32>::empty());
    assert(s_a.data@.skip(h1 * wi) =~= Seq::<u32>::empty());
    assert(s_b.data@.skip(h2 * wi) =~= Seq::<u32>::empty());
    if img.header.spec_has_channel(s_full.name@) {
        let samples = img.spec_samples_of(s_full.name@);
        let hidx = img.header.spec_channel_index(s_full.name@);
        assert(samples.len() == wi * hi);
        assert(hi * wi == wi * hi) by (nonlinear_arith);
        assert(0 * wi == 0) by (nonlinear_arith);
        assert((0 + (h1 + h2)) * wi == (h1 + h2) * wi);
        assert((0 + h1) * wi == h1 * wi);
        assert((h1 + h2) * wi <= samples.len());
        assert(samples.subrange(0, (h1 + h2) * wi) =~= samples.subrange(0, h1 * wi)
            + samples.subrange(h1 * wi, (h1 + h2) * wi));
        assert(scattered_slice_data(img, s_full, 0, h1 + h2) =~= scattered_slice_data(
            img,
            s_a,
            0,
            h1,
        ) + scattered_slice_data(img, s_b, h1, h2));
    } else {
        assert(scattered_slice_data(img, s_full, 0, h1 + h2) =~= scattered_slice_data(
            img,
            s_a,
            0,
            h1,
        ) + scattered_slice_data(img, s_b, h1, h2));
    }
}

} // verus!
