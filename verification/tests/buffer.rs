use scull::buffer::GuardedBuffer;
use scull::Error;

#[test]
fn new_buffer_is_empty() {
    let b = GuardedBuffer::new();
    assert_eq!(b.current_length(), 0);
}

#[test]
fn contiguous_writes_concatenate() {
    let mut b = GuardedBuffer::new();
    assert_eq!(b.write_from(&b"ab".to_vec(), 0), Ok(2));
    assert_eq!(b.write_from(&b"cd".to_vec(), 2), Ok(2));
    assert_eq!(b.write_from(&b"e".to_vec(), 4), Ok(1));
    let mut dest = vec![0u8; 5];
    assert_eq!(b.read_into(&mut dest, 0), 5);
    assert_eq!(dest, b"abcde".to_vec());
}

#[test]
fn write_past_end_zero_fills_the_gap() {
    let mut b = GuardedBuffer::new();
    assert_eq!(b.write_from(&b"ab".to_vec(), 0), Ok(2));
    assert_eq!(b.current_length(), 2);
    assert_eq!(b.write_from(&b"cd".to_vec(), 5), Ok(2));
    assert_eq!(b.current_length(), 7);
    let mut dest = vec![9u8; 7];
    assert_eq!(b.read_into(&mut dest, 0), 7);
    assert_eq!(dest, b"ab\0\0\0cd".to_vec());
}

#[test]
fn overlapping_write_keeps_bytes_outside_the_write() {
    let mut b = GuardedBuffer::new();
    assert_eq!(b.write_from(&b"abcd".to_vec(), 0), Ok(4));
    assert_eq!(b.write_from(&b"xy".to_vec(), 1), Ok(2));
    let mut dest = vec![0u8; 4];
    assert_eq!(b.read_into(&mut dest, 0), 4);
    assert_eq!(dest, b"axyd".to_vec());
    // The buffer never shrinks on a short overlapping write.
    assert_eq!(b.current_length(), 4);
}

#[test]
fn read_at_or_past_end_returns_zero_bytes() {
    let mut b = GuardedBuffer::new();
    assert_eq!(b.write_from(&b"abc".to_vec(), 0), Ok(3));
    let mut dest = vec![7u8; 4];
    assert_eq!(b.read_into(&mut dest, 3), 0);
    assert_eq!(b.read_into(&mut dest, 100), 0);
    // The destination is untouched when nothing is copied.
    assert_eq!(dest, vec![7u8; 4]);
}

#[test]
fn read_is_capped_by_destination_and_by_content() {
    let mut b = GuardedBuffer::new();
    assert_eq!(b.write_from(&b"abcdef".to_vec(), 0), Ok(6));
    let mut small = vec![0u8; 2];
    assert_eq!(b.read_into(&mut small, 1), 2);
    assert_eq!(small, b"bc".to_vec());
    let mut large = vec![9u8; 10];
    assert_eq!(b.read_into(&mut large, 4), 2);
    assert_eq!(&large[..2], b"ef");
    // Bytes past the copied prefix keep their old values.
    assert_eq!(&large[2..], &[9u8; 8]);
}

#[test]
fn empty_destination_reads_zero_bytes() {
    let mut b = GuardedBuffer::new();
    assert_eq!(b.write_from(&b"abc".to_vec(), 0), Ok(3));
    let mut dest: Vec<u8> = Vec::new();
    assert_eq!(b.read_into(&mut dest, 0), 0);
}

#[test]
fn unrepresentable_write_overflows_and_changes_nothing() {
    let mut b = GuardedBuffer::new();
    assert_eq!(b.write_from(&b"ab".to_vec(), 0), Ok(2));
    assert_eq!(b.write_from(&b"x".to_vec(), usize::MAX), Err(Error::Overflow));
    assert_eq!(b.current_length(), 2);
    let mut dest = vec![0u8; 2];
    assert_eq!(b.read_into(&mut dest, 0), 2);
    assert_eq!(dest, b"ab".to_vec());
}

#[test]
fn empty_write_at_the_end_is_ok() {
    let mut b = GuardedBuffer::new();
    let empty: Vec<u8> = Vec::new();
    assert_eq!(b.write_from(&empty, 0), Ok(0));
    assert_eq!(b.current_length(), 0);
    // An empty write past the end still grows the buffer to its offset.
    assert_eq!(b.write_from(&empty, 3), Ok(0));
    assert_eq!(b.current_length(), 3);
}
