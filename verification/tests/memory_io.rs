use openexr::{ChannelDesc, FrameBuffer, FrameBufferMut, Header, InputFile, PixelType,
    ScanlineOutputFile};

fn rgb_descs(fill: f64) -> Vec<ChannelDesc> {
    let fill_bits = (fill as f32).to_bits();
    vec![
        ChannelDesc { name: "R".to_string(), pixel_type: PixelType::FLOAT, offset: 0, fill: fill_bits },
        ChannelDesc { name: "G".to_string(), pixel_type: PixelType::FLOAT, offset: 1, fill: fill_bits },
        ChannelDesc { name: "B".to_string(), pixel_type: PixelType::FLOAT, offset: 2, fill: fill_bits },
    ]
}

fn interleaved_rgb(color: (f32, f32, f32), pixels: usize) -> Vec<u32> {
    let mut data: Vec<u32> = Vec::with_capacity(pixels * 3);
    for _ in 0..pixels {
        data.push(color.0.to_bits());
        data.push(color.1.to_bits());
        data.push(color.2.to_bits());
    }
    data
}

#[test]
fn memory_io() {
    // Write the image to an in-memory image value.
    let image = {
        let pixel_data = interleaved_rgb((0.82f32, 1.78f32, 0.21f32), 256 * 256);

        let header = Header::new()
            .set_resolution(256, 256)
            .unwrap()
            .add_channel("R", PixelType::FLOAT)
            .unwrap()
            .add_channel("G", PixelType::FLOAT)
            .unwrap()
            .add_channel("B", PixelType::FLOAT)
            .unwrap();

        let mut exr_file = ScanlineOutputFile::new(header).unwrap();

        let mut fb = FrameBuffer::new(256, 256);
        fb.insert_channels(&rgb_descs(0.0), 3, &pixel_data).unwrap();

        exr_file.write_pixels(&fb).unwrap();
        exr_file.into_image().unwrap()
    };

    // Read the image back, and verify its contents.
    {
        let mut exr_file = InputFile::new(image);
        let (width, height) = exr_file.header().data_dimensions();

        // Make sure the image properties are the same.
        assert_eq!(width, 256);
        assert_eq!(height, 256);
        for channel_name in &["R", "G", "B"] {
            let channel = exr_file
                .header()
                .get_channel(channel_name)
                .unwrap_or_else(|| panic!("Didn't find channel {}.", channel_name));
            assert_eq!(channel.pixel_type, PixelType::FLOAT);
        }

        // Read in the pixel data.
        let mut fb = FrameBufferMut::new(width, height);
        let zeroes: Vec<u32> = vec![0u32; (width * height) as usize];
        fb.insert_channel("R", PixelType::FLOAT, 0, &zeroes).unwrap();
        fb.insert_channel("G", PixelType::FLOAT, 0, &zeroes).unwrap();
        fb.insert_channel("B", PixelType::FLOAT, 0, &zeroes).unwrap();

        exr_file.read_pixels(&mut fb).unwrap();

        // Verify the data is what we expect.
        let expected = (0.82f32.to_bits(), 1.78f32.to_bits(), 0.21f32.to_bits());
        let r = fb.channel_data("R").unwrap();
        let g = fb.channel_data("G").unwrap();
        let b = fb.channel_data("B").unwrap();
        for p in 0..(width * height) as usize {
            assert_eq!((r[p], g[p], b[p]), expected);
        }
    }
}
