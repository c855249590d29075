use openexr::{channel_layout_of, Box2i, Channel, Envmap, FrameBuffer, Header, LineOrder,
    PixelType, V2i};

#[test]
fn it_works() {
    let _ = FrameBuffer::new(256, 256);
}

#[test]
fn header_defaults_and_setters() {
    let header = Header::new();
    assert_eq!(header.data_window(), header.display_window());
    assert_eq!(header.data_origin(), (0, 0));
    assert_eq!(header.data_dimensions(), (2, 2));
    assert!(header.channels().is_empty());
    assert_eq!(header.envmap(), None);
    assert!(header.multiview().is_none());

    let header = header.set_resolution(1920, 1080).unwrap();
    assert_eq!(header.data_dimensions(), (1920, 1080));
    assert_eq!(header.display_window().max, V2i { x: 1919, y: 1079 });

    let header = header
        .set_line_order(LineOrder::DECREASING_Y)
        .set_envmap(Some(Envmap::Cube))
        .set_multiview(Some(vec!["left".to_string(), "right".to_string()]));
    assert_eq!(header.line_order, LineOrder::DECREASING_Y);
    assert_eq!(header.envmap(), Some(Envmap::Cube));
    assert_eq!(header.multiview().unwrap().len(), 2);

    let header = header.set_envmap(None).set_multiview(None);
    assert_eq!(header.envmap(), None);
    assert!(header.multiview().is_none());

    let header = header
        .set_pixel_aspect_ratio(2.0f32.to_bits())
        .set_screen_window_center((0.5f32.to_bits(), 0.25f32.to_bits()))
        .set_screen_window_width(3.0f32.to_bits());
    assert_eq!(f32::from_bits(header.pixel_aspect_ratio_bits), 2.0);
    assert_eq!(f32::from_bits(header.screen_window_center_bits.0), 0.5);
    assert_eq!(f32::from_bits(header.screen_window_center_bits.1), 0.25);
    assert_eq!(f32::from_bits(header.screen_window_width_bits), 3.0);
}

#[test]
fn header_rejects_bad_geometry() {
    assert!(Header::new().set_resolution(0, 10).is_err());
    assert!(Header::new().set_resolution(10, 0).is_err());
    assert!(Header::new().set_resolution(10, 10).is_ok());

    let upside_down = Box2i { min: V2i { x: 0, y: 4 }, max: V2i { x: 4, y: 0 } };
    assert!(Header::new().set_data_window(upside_down).is_err());
    assert!(Header::new().set_display_window(upside_down).is_err());
}

#[test]
fn box2i_from_origin_and_size() {
    let b = Header::box2i(-8, -8, 16, 16);
    assert_eq!(b.min, V2i { x: -8, y: -8 });
    assert_eq!(b.max, V2i { x: 7, y: 7 });
    assert_eq!(b.width(), 16);
    assert_eq!(b.height(), 16);
}

#[test]
fn channel_lookup_distinguishes_absence_from_mismatch() {
    let header = Header::new()
        .set_resolution(4, 4)
        .unwrap()
        .add_channel("R", PixelType::FLOAT)
        .unwrap();
    let found: &Channel = header.get_channel("R").unwrap();
    assert_eq!(found.pixel_type, PixelType::FLOAT);
    assert_eq!((found.x_sampling, found.y_sampling), (1, 1));
    assert!(found.p_linear);
    assert!(header.get_channel("G").is_none());
}

#[test]
fn channel_details_are_kept() {
    let detailed = Channel { pixel_type: PixelType::UINT, x_sampling: 2, y_sampling: 4, p_linear: false };
    let header = Header::new().add_channel_detailed("Z", detailed).unwrap();
    assert_eq!(*header.get_channel("Z").unwrap(), detailed);

    let invalid = Channel { pixel_type: PixelType::UINT, x_sampling: 0, y_sampling: 1, p_linear: false };
    assert!(Header::new().add_channel_detailed("Z", invalid).is_err());
}

#[test]
fn pixel_type_sample_widths() {
    assert_eq!(PixelType::UINT.bytes_per_sample(), 4);
    assert_eq!(PixelType::HALF.bytes_per_sample(), 2);
    assert_eq!(PixelType::FLOAT.bytes_per_sample(), 4);
}

#[test]
fn frame_buffer_reports_geometry() {
    let fb = FrameBuffer::new(256, 128);
    assert_eq!(fb.dimensions(), (256, 128));
    assert_eq!(fb.origin(), (0, 0));

    let fb = FrameBuffer::new_with_origin(-3, 7, 16, 8);
    assert_eq!(fb.dimensions(), (16, 8));
    assert_eq!(fb.origin(), (-3, 7));
}

#[test]
fn channel_layouts_of_record_types() {
    assert_eq!(channel_layout_of::<u32>(), vec![(PixelType::UINT, 0)]);
    assert_eq!(
        channel_layout_of::<[u32; 3]>(),
        vec![(PixelType::UINT, 0), (PixelType::UINT, 1), (PixelType::UINT, 2)]
    );
    assert_eq!(
        channel_layout_of::<(u32, u32, u32, u32)>(),
        vec![
            (PixelType::UINT, 0),
            (PixelType::UINT, 1),
            (PixelType::UINT, 2),
            (PixelType::UINT, 3),
        ]
    );
}

#[test]
fn frame_buffer_geometry_check_against_header() {
    let header = Header::new().set_resolution(8, 8).unwrap();
    assert!(FrameBuffer::new(8, 8).validate_header_for_output(&header).is_ok());
    assert!(FrameBuffer::new(8, 4).validate_header_for_output(&header).is_err());
}
