use openexr::{ChannelDesc, FrameBuffer, FrameBufferMut, Header, InputFile, PixelType,
    ScanlineOutputFile};

fn rgb_descs(fill: f64) -> Vec<ChannelDesc> {
    let fill_bits = (fill as f32).to_bits();
    vec![
        ChannelDesc { name: "R".to_string(), pixel_type: PixelType::FLOAT, offset: 0, fill: fill_bits },
        ChannelDesc { name: "G".to_string(), pixel_type: PixelType::FLOAT, offset: 1, fill: fill_bits },
        ChannelDesc { name: "B".to_string(), pixel_type: PixelType::FLOAT, offset: 2, fill: fill_bits },
    ]
}

fn interleaved_rgb(color: (f32, f32, f32), pixels: usize) -> Vec<u32> {
    let mut data: Vec<u32> = Vec::with_capacity(pixels * 3);
    for _ in 0..pixels {
        data.push(color.0.to_bits());
        data.push(color.1.to_bits());
        data.push(color.2.to_bits());
    }
    data
}

fn chunk_buffer(color: (f32, f32, f32)) -> FrameBuffer {
    let pixel_data = interleaved_rgb(color, 256 * 64);
    let mut fb = FrameBuffer::new(256, 64);
    fb.insert_channels(&rgb_descs(0.0), 3, &pixel_data).unwrap();
    fb
}

#[test]
fn incremental_io() {
    // Write the image incrementally with four calls, using different colors
    // for each call.
    let image = {
        let header = Header::new()
            .set_resolution(256, 256)
            .unwrap()
            .add_channel("R", PixelType::FLOAT)
            .unwrap()
            .add_channel("G", PixelType::FLOAT)
            .unwrap()
            .add_channel("B", PixelType::FLOAT)
            .unwrap();

        let mut exr_file = ScanlineOutputFile::new(header).unwrap();

        exr_file.write_pixels_incremental(&chunk_buffer((1.0, 0.0, 0.0))).unwrap();
        exr_file.write_pixels_incremental(&chunk_buffer((0.0, 1.0, 0.0))).unwrap();
        exr_file.write_pixels_incremental(&chunk_buffer((0.0, 0.0, 1.0))).unwrap();
        exr_file.write_pixels_incremental(&chunk_buffer((1.0, 1.0, 1.0))).unwrap();

        exr_file.into_image().unwrap()
    };

    // Read the image back, and verify its contents.
    {
        let mut exr_file = InputFile::new(image);
        let (width, height) = exr_file.header().data_dimensions();

        // Make sure the image properties are the same.
        assert_eq!(width, 256);
        assert_eq!(height, 256);
        for channel_name in &["R", "G", "B"] {
            let channel = exr_file
                .header()
                .get_channel(channel_name)
                .unwrap_or_else(|| panic!("Didn't find channel {}.", channel_name));
            assert_eq!(channel.pixel_type, PixelType::FLOAT);
        }

        // Read in the pixel data in four chunks, verifying that each has
        // the data we expect.
        let expectations = [
            (0u32, (1.0f32, 0.0f32, 0.0f32)),
            (64u32, (0.0f32, 1.0f32, 0.0f32)),
            (128u32, (0.0f32, 0.0f32, 1.0f32)),
            (192u32, (1.0f32, 1.0f32, 1.0f32)),
        ];
        for (start, color) in expectations {
            let mut fb = FrameBufferMut::new(256, 64);
            let zeroes: Vec<u32> = vec![0u32; 256 * 64];
            let fill = 0.1f32.to_bits();
            fb.insert_channel("R", PixelType::FLOAT, fill, &zeroes).unwrap();
            fb.insert_channel("G", PixelType::FLOAT, fill, &zeroes).unwrap();
            fb.insert_channel("B", PixelType::FLOAT, fill, &zeroes).unwrap();

            let read = exr_file.read_pixels_partial(start, &mut fb).unwrap();
            assert_eq!(read, 64);

            let expected = (color.0.to_bits(), color.1.to_bits(), color.2.to_bits());
            let r = fb.channel_data("R").unwrap();
            let g = fb.channel_data("G").unwrap();
            let b = fb.channel_data("B").unwrap();
            for p in 0..256 * 64 {
                assert_eq!((r[p], g[p], b[p]), expected);
            }
        }
    }
}
