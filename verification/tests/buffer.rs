use x11_codec::buffer::{Reader, Writer};
use x11_codec::error::{ReadError, WriteError};

#[test]
fn integers_are_written_high_byte_first() {
    let mut w = Writer::new();
    assert_eq!(w.write_u8(0x7f), Ok(()));
    assert_eq!(w.write_u16(0x0809), Ok(()));
    assert_eq!(w.write_u32(0x0a0b0c0d), Ok(()));
    assert_eq!(w.into_vec(), vec![0x7f, 0x08, 0x09, 0x0a, 0x0b, 0x0c, 0x0d]);
}

#[test]
fn integers_are_read_high_byte_first() {
    let mut r = Reader::new(&[0x7f, 0x08, 0x09, 0x0a, 0x0b, 0x0c, 0x0d, 0xee]);
    assert_eq!(r.read_u8(), Ok(0x7f));
    assert_eq!(r.read_u16(), Ok(0x0809));
    assert_eq!(r.read_u32(), Ok(0x0a0b0c0d));
    assert_eq!(r.remaining(), 1);
    assert_eq!(r.read_u16(), Err(ReadError::BufferUnderrun));
    assert_eq!(r.remaining(), 1);
}

#[test]
fn a_full_sink_refuses_the_write() {
    let mut w = Writer::with_limit(3);
    assert_eq!(w.write_u16(1), Ok(()));
    assert_eq!(w.write_u16(2), Err(WriteError::SinkExhausted));
    assert_eq!(w.write_u8(3), Ok(()));
    assert_eq!(w.into_vec(), vec![0, 1, 3]);
}

#[test]
fn unused_bytes_are_written_and_skipped() {
    let mut w = Writer::new();
    assert_eq!(w.write_bytes(3, 0xab), Ok(()));
    assert_eq!(w.write_bytes(0, 0xcd), Ok(()));
    assert_eq!(w.write_raw(&[1, 2]), Ok(()));
    assert_eq!(w.write_raw(&[]), Ok(()));
    assert!(w.fits(5));
    let bytes = w.into_vec();
    assert_eq!(bytes, vec![0xab, 0xab, 0xab, 1, 2]);
    let mut r = Reader::new(&bytes);
    assert_eq!(r.advance(3), Ok(()));
    assert_eq!(r.advance(0), Ok(()));
    assert_eq!(r.read_raw(2), Ok(vec![1, 2]));
    assert_eq!(r.read_raw(0), Ok(vec![]));
    assert_eq!(r.advance(1), Err(ReadError::BufferUnderrun));
    assert_eq!(r.read_raw(1), Err(ReadError::BufferUnderrun));
    assert_eq!(r.read_u8(), Err(ReadError::BufferUnderrun));
    assert_eq!(r.read_u32(), Err(ReadError::BufferUnderrun));
}

#[test]
fn a_sink_with_no_room_takes_nothing_but_nothing() {
    let mut w = Writer::with_limit(0);
    assert!(w.fits(0));
    assert!(!w.fits(1));
    assert_eq!(w.write_raw(&[]), Ok(()));
    assert_eq!(w.write_bytes(0, 0), Ok(()));
    assert_eq!(w.write_u8(1), Err(WriteError::SinkExhausted));
    assert_eq!(w.write_bytes(1, 0), Err(WriteError::SinkExhausted));
    assert_eq!(w.write_raw(&[1]), Err(WriteError::SinkExhausted));
    assert_eq!(w.write_u32(1), Err(WriteError::SinkExhausted));
    assert_eq!(w.into_vec(), Vec::<u8>::new());
}

#[test]
fn cursors_wrap_the_buffers_of_the_bytes_crate() {
    let mut r = Reader::from_bytes(bytes::Bytes::from(vec![1, 2, 3]));
    assert_eq!(r.read_u8(), Ok(1));
    let rest = r.into_bytes();
    assert_eq!(&rest[..], &[2, 3]);
    let mut w = Writer::new();
    assert_eq!(w.write_u16(0x0405), Ok(()));
    let buf = w.into_bytes();
    assert_eq!(&buf[..], &[4, 5]);
}
