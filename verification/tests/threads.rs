use openexr::set_global_thread_count;

#[test]
fn test_set_global_thread_count() {
    assert!(set_global_thread_count(4).is_ok());
    assert!(set_global_thread_count(i32::MAX as usize + 1).is_err());
}
