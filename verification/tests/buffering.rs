use enturion::log_util::BufWriter;

#[test]
pub fn buffer_is_empty_on_creation() {
    let writer = BufWriter::default();
    assert!(writer.buffer().is_empty());
}

#[test]
pub fn writes_are_buffered() {
    let mut writer = BufWriter::default();
    let n = writer.write("This needs to be written buffered".as_bytes());
    assert_eq!(n, "This needs to be written buffered".len());
    assert!(writer.buffer().is_empty());

    writer.flush();
    assert!(!writer.buffer().is_empty());
    assert_eq!(writer.buffer(), "This needs to be written buffered".as_bytes());
}
