use rduino::io::{
    immediate_read_len, read_exact_step, read_to_end_step, write_all_step, Error, FixedBuffer,
    Read, ReadProgress, ReceiveQueue, Write,
};

#[test]
fn fixed_buffer_write_takes_what_fits() {
    let mut b = FixedBuffer::new(4);
    assert_eq!(b.write(b"abc"), Ok(3));
    assert_eq!(b.write(b"def"), Ok(1));
    assert_eq!(b.write(b"g"), Ok(0));
    assert_eq!(b.as_slice(), b"abcd");
    assert_eq!(b.flush(), Ok(()));
}

#[test]
fn write_all_fits() {
    let mut b = FixedBuffer::new(16);
    assert_eq!(b.write_all(b"hello world"), Ok(()));
    assert_eq!(b.as_slice(), b"hello world");
}

#[test]
fn write_all_empty_is_ok() {
    let mut b = FixedBuffer::new(0);
    assert_eq!(b.write_all(b""), Ok(()));
    assert!(b.as_slice().is_empty());
}

#[test]
fn write_all_into_full_buffer_is_write_zero() {
    let mut b = FixedBuffer::new(5);
    assert_eq!(b.write_all(b"abcdefgh"), Err(Error::WriteZero));
    assert_eq!(b.as_slice(), b"abcde");
}

#[test]
fn receive_queue_reads_in_bursts() {
    let mut q = ReceiveQueue::new(b"0123456789".to_vec(), 4);
    let mut buf = [0u8; 6];
    assert_eq!(q.read(&mut buf), Ok(4));
    assert_eq!(&buf, b"0123\0\0");
    assert_eq!(q.available(), 6);
    let mut small = [0u8; 2];
    assert_eq!(q.read(&mut small), Ok(2));
    assert_eq!(&small, b"45");
}

#[test]
fn read_exact_fills_buffer() {
    let mut q = ReceiveQueue::new(b"0123456789".to_vec(), 3);
    let mut buf = [0u8; 7];
    assert_eq!(q.read_exact(&mut buf), Ok(()));
    assert_eq!(&buf, b"0123456");
    assert_eq!(q.available(), 3);
}

#[test]
fn read_exact_empty_buffer_is_ok() {
    let mut q = ReceiveQueue::new(vec![], 3);
    let mut buf = [0u8; 0];
    assert_eq!(q.read_exact(&mut buf), Ok(()));
}

#[test]
fn read_exact_short_source_is_unexpected_eof() {
    let mut q = ReceiveQueue::new(b"abc".to_vec(), 2);
    let mut buf = [0u8; 5];
    assert_eq!(q.read_exact(&mut buf), Err(Error::UnexpectedEof));
    assert_eq!(q.available(), 0);
    assert_eq!(&buf[..3], b"abc");
}

#[test]
fn read_to_end_appends_everything() {
    let data: Vec<u8> = (0..200u32).map(|i| i as u8).collect();
    let mut q = ReceiveQueue::new(data.clone(), 7);
    let mut buf = vec![9u8, 9];
    assert_eq!(q.read_to_end(&mut buf), Ok(200));
    let mut expected = vec![9u8, 9];
    expected.extend_from_slice(&data);
    assert_eq!(buf, expected);
    assert_eq!(q.available(), 0);
}

#[test]
fn read_to_end_of_empty_source() {
    let mut q = ReceiveQueue::new(vec![], 4);
    let mut buf = vec![1u8];
    assert_eq!(q.read_to_end(&mut buf), Ok(0));
    assert_eq!(buf, vec![1u8]);
}

#[test]
fn error_descriptions() {
    assert_eq!(Error::WriteZero.description(), "write zero");
    assert_eq!(Error::UnexpectedEof.description(), "unexpected end of file");
    assert_eq!(Error::InvalidInterruptPin.description(), "invalid interrupt pin");
    assert_eq!(Error::UnsupportedSerialMode.description(), "unsupported serial mode");
    assert_eq!(Error::Other.description(), "other error");
}

#[test]
fn write_all_step_decisions() {
    assert_eq!(write_all_step(10, 4, Ok(3)), Ok(7));
    assert_eq!(write_all_step(10, 4, Ok(0)), Err(Error::WriteZero));
    assert_eq!(write_all_step(10, 4, Err(Error::Other)), Err(Error::Other));
}

#[test]
fn read_exact_step_decisions() {
    assert_eq!(read_exact_step(8, 0, Ok(8)), Ok(8));
    assert_eq!(read_exact_step(8, 2, Ok(0)), Err(Error::UnexpectedEof));
    assert_eq!(read_exact_step(8, 2, Err(Error::WriteZero)), Err(Error::WriteZero));
}

#[test]
fn read_to_end_step_decisions() {
    assert_eq!(read_to_end_step(2, 5, Ok(0)), Ok(ReadProgress::Done(3)));
    assert_eq!(read_to_end_step(2, 5, Ok(4)), Ok(ReadProgress::More(9)));
    assert_eq!(read_to_end_step(2, 5, Err(Error::Other)), Err(Error::Other));
}

#[test]
fn immediate_read_takes_the_smaller_count() {
    assert_eq!(immediate_read_len(10, 4), 4);
    assert_eq!(immediate_read_len(3, 4), 3);
    assert_eq!(immediate_read_len(0, 4), 0);
}
