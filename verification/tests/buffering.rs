use wget::collect::ByteBuffer;

#[test]
fn accumulates_chunks_in_order() {
    let mut buf = ByteBuffer::new();
    buf.push_chunk(&[1, 2, 3]);
    buf.push_chunk(&[]);
    buf.push_chunk(&[4, 5]);
    assert_eq!(buf.len(), 5);
    assert_eq!(buf.into_vec(), vec![1, 2, 3, 4, 5]);
}

#[test]
fn empty_buffer_holds_nothing() {
    let buf = ByteBuffer::new();
    assert_eq!(buf.len(), 0);
    assert_eq!(buf.into_vec(), Vec::<u8>::new());
}

#[test]
fn single_chunk_is_kept_exactly() {
    let mut buf = ByteBuffer::new();
    buf.push_chunk(b"hello world");
    assert_eq!(buf.into_vec(), b"hello world".to_vec());
}
