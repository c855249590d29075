use openexr::{ChannelDesc, FrameBuffer, FrameBufferMut, Header, InputFile, PixelType,
    ScanlineOutputFile};

fn small_header(channels: &[&str]) -> Header {
    let mut header = Header::new().set_resolution(4, 4).unwrap();
    for name in channels {
        header = header.add_channel(name, PixelType::FLOAT).unwrap();
    }
    header
}

fn write_constant_image(channels: &[&str], value: f32) -> openexr::ImageData {
    let mut exr_file = ScanlineOutputFile::new(small_header(channels)).unwrap();
    let samples: Vec<u32> = vec![value.to_bits(); 16];
    let mut fb = FrameBuffer::new(4, 4);
    for name in channels {
        fb.insert_channel(name, PixelType::FLOAT, &samples).unwrap();
    }
    exr_file.write_pixels(&fb).unwrap();
    exr_file.into_image().unwrap()
}

#[test]
fn missing_channel_filled_on_read() {
    // The image only has R; the destination also declares A with a fill
    // value, which the read must use for every pixel, without error.
    let mut exr_file = InputFile::new(write_constant_image(&["R"], 0.75));

    let fill = 0.25f32.to_bits();
    let zeroes: Vec<u32> = vec![0u32; 16];
    let mut fb = FrameBufferMut::new(4, 4);
    fb.insert_channel("R", PixelType::FLOAT, 0, &zeroes).unwrap();
    fb.insert_channel("A", PixelType::FLOAT, fill, &zeroes).unwrap();

    exr_file.read_pixels(&mut fb).unwrap();

    let r = fb.channel_data("R").unwrap();
    let a = fb.channel_data("A").unwrap();
    for p in 0..16 {
        assert_eq!(r[p], 0.75f32.to_bits());
        assert_eq!(a[p], fill);
    }
}

#[test]
fn missing_channel_rejected_on_write() {
    // The header declares G, but the source frame buffer does not carry it:
    // the write must fail before anything is written, so a complete source
    // is still accepted afterwards.
    let mut exr_file = ScanlineOutputFile::new(small_header(&["R", "G"])).unwrap();

    let samples: Vec<u32> = vec![0.5f32.to_bits(); 16];
    let mut incomplete = FrameBuffer::new(4, 4);
    incomplete.insert_channel("R", PixelType::FLOAT, &samples).unwrap();
    assert!(exr_file.write_pixels(&incomplete).is_err());
    assert!(exr_file.write_pixels_incremental(&incomplete).is_err());

    let mut complete = FrameBuffer::new(4, 4);
    complete.insert_channel("R", PixelType::FLOAT, &samples).unwrap();
    complete.insert_channel("G", PixelType::FLOAT, &samples).unwrap();
    exr_file.write_pixels(&complete).unwrap();
}

#[test]
fn full_write_happens_once() {
    let mut exr_file = ScanlineOutputFile::new(small_header(&["R"])).unwrap();

    let samples: Vec<u32> = vec![0.5f32.to_bits(); 16];
    let mut fb = FrameBuffer::new(4, 4);
    fb.insert_channel("R", PixelType::FLOAT, &samples).unwrap();

    exr_file.write_pixels(&fb).unwrap();
    assert!(exr_file.write_pixels(&fb).is_err());
}

#[test]
fn incremental_write_stops_at_image_height() {
    let mut exr_file = ScanlineOutputFile::new(small_header(&["R"])).unwrap();

    let chunk_samples: Vec<u32> = vec![0.5f32.to_bits(); 8];
    let mut chunk = FrameBuffer::new(4, 2);
    chunk.insert_channel("R", PixelType::FLOAT, &chunk_samples).unwrap();

    exr_file.write_pixels_incremental(&chunk).unwrap();
    exr_file.write_pixels_incremental(&chunk).unwrap();
    // The scanline counter has reached the image height.
    assert!(exr_file.write_pixels_incremental(&chunk).is_err());
    let image = exr_file.into_image().unwrap();
    assert_eq!(image.channel_samples("R").unwrap().len(), 16);
}

#[test]
fn incremental_write_clamps_to_remaining_scanlines() {
    // A chunk taller than what remains writes only the remaining scanlines.
    let mut exr_file = ScanlineOutputFile::new(small_header(&["R"])).unwrap();

    let mut first = FrameBuffer::new(4, 3);
    let first_samples: Vec<u32> = vec![1.0f32.to_bits(); 12];
    first.insert_channel("R", PixelType::FLOAT, &first_samples).unwrap();
    exr_file.write_pixels_incremental(&first).unwrap();

    let mut tall = FrameBuffer::new(4, 3);
    let tall_samples: Vec<u32> = vec![2.0f32.to_bits(); 12];
    tall.insert_channel("R", PixelType::FLOAT, &tall_samples).unwrap();
    exr_file.write_pixels_incremental(&tall).unwrap();

    let image = exr_file.into_image().unwrap();
    let r = image.channel_samples("R").unwrap();
    for p in 0..12 {
        assert_eq!(r[p], 1.0f32.to_bits());
    }
    for p in 12..16 {
        assert_eq!(r[p], 2.0f32.to_bits());
    }
}

#[test]
fn buffer_length_must_match_dimensions() {
    let samples_short: Vec<u32> = vec![0u32; 15];
    let samples_long: Vec<u32> = vec![0u32; 17];
    let samples_right: Vec<u32> = vec![0u32; 16];

    let mut fb = FrameBuffer::new(4, 4);
    assert!(fb.insert_channel("R", PixelType::FLOAT, &samples_short).is_err());
    assert!(fb.insert_channel("R", PixelType::FLOAT, &samples_long).is_err());
    assert!(fb.insert_channel("R", PixelType::FLOAT, &samples_right).is_ok());

    let mut fbm = FrameBufferMut::new(4, 4);
    assert!(fbm.insert_channel("R", PixelType::FLOAT, 0, &samples_short).is_err());
    assert!(fbm.insert_channel("R", PixelType::FLOAT, 0, &samples_right).is_ok());

    // The interleaved form counts whole records.
    let descs = vec![
        ChannelDesc { name: "G".to_string(), pixel_type: PixelType::FLOAT, offset: 0, fill: 0 },
        ChannelDesc { name: "B".to_string(), pixel_type: PixelType::FLOAT, offset: 1, fill: 0 },
    ];
    let interleaved_short: Vec<u32> = vec![0u32; 30];
    let interleaved_right: Vec<u32> = vec![0u32; 32];
    assert!(fb.insert_channels(&descs, 2, &interleaved_short).is_err());
    assert!(fb.insert_channels(&descs, 2, &interleaved_right).is_ok());
}

#[test]
fn duplicate_channel_names_rejected() {
    let samples: Vec<u32> = vec![0u32; 16];
    let mut fb = FrameBuffer::new(4, 4);
    fb.insert_channel("R", PixelType::FLOAT, &samples).unwrap();
    assert!(fb.insert_channel("R", PixelType::FLOAT, &samples).is_err());

    let descs = vec![
        ChannelDesc { name: "G".to_string(), pixel_type: PixelType::FLOAT, offset: 0, fill: 0 },
        ChannelDesc { name: "G".to_string(), pixel_type: PixelType::FLOAT, offset: 1, fill: 0 },
    ];
    let interleaved: Vec<u32> = vec![0u32; 32];
    assert!(fb.insert_channels(&descs, 2, &interleaved).is_err());

    let header = small_header(&["R"]);
    assert!(header.add_channel("R", PixelType::HALF).is_err());
}

#[test]
fn channel_offset_must_lie_inside_record() {
    let mut fb = FrameBuffer::new(4, 4);
    let descs = vec![
        ChannelDesc { name: "R".to_string(), pixel_type: PixelType::FLOAT, offset: 2, fill: 0 },
    ];
    let interleaved: Vec<u32> = vec![0u32; 32];
    assert!(fb.insert_channels(&descs, 2, &interleaved).is_err());
}

#[test]
fn interleaved_channels_deinterleave() {
    // Offsets need not follow the description order: each channel gathers
    // the samples at its own slot of every record.
    let mut fb = FrameBuffer::new(2, 1);
    let descs = vec![
        ChannelDesc { name: "R".to_string(), pixel_type: PixelType::UINT, offset: 2, fill: 0 },
        ChannelDesc { name: "G".to_string(), pixel_type: PixelType::UINT, offset: 0, fill: 0 },
    ];
    let interleaved: Vec<u32> = vec![10, 11, 12, 20, 21, 22];
    fb.insert_channels(&descs, 3, &interleaved).unwrap();
    assert_eq!(fb.channel_data("R").unwrap().as_slice(), &[12, 22]);
    assert_eq!(fb.channel_data("G").unwrap().as_slice(), &[10, 20]);
}

#[test]
fn mismatched_channel_description_rejected_on_read() {
    let mut exr_file = InputFile::new(write_constant_image(&["R"], 0.5));

    let zeroes: Vec<u32> = vec![0u32; 16];
    let mut fb = FrameBufferMut::new(4, 4);
    fb.insert_channel("R", PixelType::HALF, 0, &zeroes).unwrap();
    assert!(exr_file.read_pixels(&mut fb).is_err());
}

#[test]
fn mismatched_subsampling_rejected_on_write() {
    let header = Header::new()
        .set_resolution(4, 4)
        .unwrap()
        .add_channel_detailed(
            "R",
            openexr::Channel {
                pixel_type: PixelType::FLOAT,
                x_sampling: 2,
                y_sampling: 2,
                p_linear: true,
            },
        )
        .unwrap();
    let mut exr_file = ScanlineOutputFile::new(header).unwrap();

    // The registered slice is full resolution, so it conflicts with the
    // header's subsampled channel.
    let samples: Vec<u32> = vec![0u32; 16];
    let mut fb = FrameBuffer::new(4, 4);
    fb.insert_channel("R", PixelType::FLOAT, &samples).unwrap();
    assert!(exr_file.write_pixels(&fb).is_err());
}

#[test]
fn partial_read_clamps_and_leaves_tail_untouched() {
    let mut exr_file = InputFile::new(write_constant_image(&["R"], 1.5));

    let sentinel = 9.0f32.to_bits();
    let mut fb = FrameBufferMut::new(4, 3);
    let old: Vec<u32> = vec![sentinel; 12];
    fb.insert_channel("R", PixelType::FLOAT, 0, &old).unwrap();

    // Starting at scanline 2 of a 4-tall image, only 2 of the 3 buffer rows
    // can be read.
    let read = exr_file.read_pixels_partial(2, &mut fb).unwrap();
    assert_eq!(read, 2);
    let r = fb.channel_data("R").unwrap();
    for p in 0..8 {
        assert_eq!(r[p], 1.5f32.to_bits());
    }
    for p in 8..12 {
        assert_eq!(r[p], sentinel);
    }

    // Starting beyond the last scanline is a protocol error.
    assert!(exr_file.read_pixels_partial(4, &mut fb).is_err());
}

#[test]
fn read_rejects_mismatched_dimensions() {
    let mut exr_file = InputFile::new(write_constant_image(&["R"], 0.5));

    let zeroes: Vec<u32> = vec![0u32; 12];
    let mut fb = FrameBufferMut::new(4, 3);
    fb.insert_channel("R", PixelType::FLOAT, 0, &zeroes).unwrap();
    assert!(exr_file.read_pixels(&mut fb).is_err());

    let zeroes_wide: Vec<u32> = vec![0u32; 15];
    let mut wide = FrameBufferMut::new(5, 3);
    wide.insert_channel("R", PixelType::FLOAT, 0, &zeroes_wide).unwrap();
    assert!(exr_file.read_pixels_partial(0, &mut wide).is_err());
}

#[test]
fn incomplete_image_cannot_be_finished() {
    let mut exr_file = ScanlineOutputFile::new(small_header(&["R"])).unwrap();
    let chunk_samples: Vec<u32> = vec![0u32; 8];
    let mut chunk = FrameBuffer::new(4, 2);
    chunk.insert_channel("R", PixelType::FLOAT, &chunk_samples).unwrap();
    exr_file.write_pixels_incremental(&chunk).unwrap();
    assert!(exr_file.into_image().is_err());
}

#[test]
fn round_trip_covers_all_pixel_types() {
    // One channel of each sample encoding survives a write and a full read
    // bit for bit.
    let header = Header::new()
        .set_resolution(4, 4)
        .unwrap()
        .add_channel("U", PixelType::UINT)
        .unwrap()
        .add_channel("H", PixelType::HALF)
        .unwrap()
        .add_channel("F", PixelType::FLOAT)
        .unwrap();
    let mut exr_file = ScanlineOutputFile::new(header).unwrap();

    let u_samples: Vec<u32> = (0u32..16).collect();
    let h_samples: Vec<u32> = vec![half::f16::from_f32(1.5).to_bits() as u32; 16];
    let f_samples: Vec<u32> = vec![0.82f32.to_bits(); 16];

    let mut fb = FrameBuffer::new(4, 4);
    fb.insert_channel("U", PixelType::UINT, &u_samples).unwrap();
    fb.insert_channel("H", PixelType::HALF, &h_samples).unwrap();
    fb.insert_channel("F", PixelType::FLOAT, &f_samples).unwrap();
    exr_file.write_pixels(&fb).unwrap();

    let mut input = InputFile::new(exr_file.into_image().unwrap());
    let zeroes: Vec<u32> = vec![0u32; 16];
    let mut dst = FrameBufferMut::new(4, 4);
    dst.insert_channel("U", PixelType::UINT, 0, &zeroes).unwrap();
    dst.insert_channel("H", PixelType::HALF, 0, &zeroes).unwrap();
    dst.insert_channel("F", PixelType::FLOAT, 0, &zeroes).unwrap();
    input.read_pixels(&mut dst).unwrap();

    assert_eq!(dst.channel_data("U").unwrap(), &u_samples);
    assert_eq!(dst.channel_data("H").unwrap(), &h_samples);
    assert_eq!(dst.channel_data("F").unwrap(), &f_samples);
}

#[test]
fn errors_carry_descriptions() {
    let err = openexr::set_global_thread_count(usize::MAX).unwrap_err();
    assert_eq!(err.description(), "the number of threads is too high");

    let mut fb = FrameBuffer::new(4, 4);
    let samples: Vec<u32> = vec![0u32; 3];
    let err = fb.insert_channel("R", PixelType::FLOAT, &samples).unwrap_err();
    assert!(!err.description().is_empty());
}
