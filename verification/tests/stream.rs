use openexr::StreamWriter;

#[test]
fn stream_writer_tracks_cursor() {
    let mut s = StreamWriter::new();
    assert_eq!(s.tellp(), 0);
    s.write(&[1, 2, 3]);
    assert_eq!(s.tellp(), 3);
    s.write(&[4, 5]);
    assert_eq!(s.tellp(), 5);
    assert_eq!(s.into_bytes(), vec![1, 2, 3, 4, 5]);
}

#[test]
fn stream_writer_overwrites_after_seek() {
    let mut s = StreamWriter::new();
    s.write(&[1, 2, 3, 4, 5]);
    s.seekp(1);
    assert_eq!(s.tellp(), 1);
    s.write(&[9, 9]);
    assert_eq!(s.tellp(), 3);
    assert_eq!(s.into_bytes(), vec![1, 9, 9, 4, 5]);
}

#[test]
fn stream_writer_zero_fills_gaps() {
    let mut s = StreamWriter::new();
    s.write(&[7]);
    s.seekp(4);
    s.write(&[8, 8]);
    assert_eq!(s.into_bytes(), vec![7, 0, 0, 0, 8, 8]);
}
