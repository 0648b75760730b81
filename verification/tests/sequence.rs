use x11_codec::buffer::{Reader, Writer};
use x11_codec::common::Window;
use x11_codec::error::{ReadError, WriteError};
use x11_codec::sequence::{read_list, write_list, LenString8};
use x11_codec::wire::{decode, encode, Readable, Writable, X11Size};

fn string(text: &str) -> LenString8 {
    LenString8::new(text.as_bytes().to_vec()).expect("a short string")
}

#[test]
fn a_list_is_its_elements_in_turn() {
    let list: Vec<u16> = vec![1, 0x0203, 0xffff];
    let mut w = Writer::new();
    assert_eq!(write_list(&list, &mut w), Ok(()));
    let bytes = w.into_vec();
    assert_eq!(bytes, vec![0, 1, 2, 3, 0xff, 0xff]);
    let mut r = Reader::new(&bytes);
    assert_eq!(read_list::<u16>(&mut r, 3), Ok(list));
    assert_eq!(r.remaining(), 0);
}

#[test]
fn an_empty_list_takes_no_bytes() {
    let list: Vec<u32> = vec![];
    let mut w = Writer::new();
    assert_eq!(write_list(&list, &mut w), Ok(()));
    assert_eq!(w.into_vec(), Vec::<u8>::new());
    let mut r = Reader::new(&[1, 2, 3]);
    assert_eq!(read_list::<u32>(&mut r, 0), Ok(vec![]));
    assert_eq!(r.remaining(), 3);
}

#[test]
fn as_many_elements_are_read_as_the_count_says() {
    let mut r = Reader::new(&[0, 0, 0, 1, 0, 0, 0, 2, 0, 0, 0, 3]);
    assert_eq!(read_list::<Window>(&mut r, 2), Ok(vec![Window::new(1), Window::new(2)]));
    assert_eq!(r.remaining(), 4);
}

#[test]
fn fewer_elements_than_the_count_says_is_an_underrun() {
    let mut r = Reader::new(&[0, 0, 0, 1, 0, 0, 0, 2, 0, 0, 0]);
    assert_eq!(read_list::<Window>(&mut r, 3), Err(ReadError::BufferUnderrun));
    let mut empty = Reader::new(&[]);
    assert_eq!(read_list::<u8>(&mut empty, 1), Err(ReadError::BufferUnderrun));
}

#[test]
fn a_list_that_does_not_fit_is_refused() {
    let list: Vec<u32> = vec![1, 2, 3];
    let mut w = Writer::with_limit(11);
    assert_eq!(write_list(&list, &mut w), Err(WriteError::SinkExhausted));
    let mut exact = Writer::with_limit(12);
    assert_eq!(write_list(&list, &mut exact), Ok(()));
}

#[test]
fn a_string_carries_its_length_in_its_first_byte() {
    let name = string("fixed");
    assert_eq!(name.x11_size(), 6);
    assert_eq!(encode(&name), Ok(vec![5, b'f', b'i', b'x', b'e', b'd']));
    assert_eq!(decode::<LenString8>(&[2, b'o', b'k', b'!']), Ok(string("ok")));
    assert_eq!(decode::<LenString8>(&[0]), Ok(string("")));
    assert_eq!(decode::<LenString8>(&[3, b'o', b'k']), Err(ReadError::BufferUnderrun));
    assert_eq!(decode::<LenString8>(&[]), Err(ReadError::BufferUnderrun));
    assert_eq!(name.bytes(), &b"fixed".to_vec());
    assert_eq!(name.clone(), name);
}

#[test]
fn a_string_holds_at_most_255_characters() {
    assert!(LenString8::new(vec![b'a'; 255]).is_some());
    assert!(LenString8::new(vec![b'a'; 256]).is_none());
    let longest = LenString8::new(vec![b'a'; 255]).expect("255 characters");
    let bytes = encode(&longest).expect("256 bytes");
    assert_eq!(bytes.len(), 256);
    assert_eq!(bytes[0], 255);
    assert_eq!(decode::<LenString8>(&bytes), Ok(longest));
}

#[test]
fn a_list_of_strings_nests_the_lengths() {
    let names = vec![string("a"), string(""), string("xyz")];
    let mut w = Writer::new();
    assert_eq!(write_list(&names, &mut w), Ok(()));
    let bytes = w.into_vec();
    assert_eq!(bytes, vec![1, b'a', 0, 3, b'x', b'y', b'z']);
    let mut r = Reader::new(&bytes);
    assert_eq!(read_list::<LenString8>(&mut r, 3), Ok(names));
    let mut short = Reader::new(&bytes[..6]);
    assert_eq!(read_list::<LenString8>(&mut short, 3), Err(ReadError::BufferUnderrun));
}

#[test]
fn scalars_round_trip() {
    assert_eq!(encode(&0x12u8), Ok(vec![0x12]));
    assert_eq!(encode(&-1i8), Ok(vec![0xff]));
    assert_eq!(encode(&0x1234u16), Ok(vec![0x12, 0x34]));
    assert_eq!(encode(&-2i16), Ok(vec![0xff, 0xfe]));
    assert_eq!(encode(&0x12345678u32), Ok(vec![0x12, 0x34, 0x56, 0x78]));
    assert_eq!(encode(&i32::MIN), Ok(vec![0x80, 0, 0, 0]));
    assert_eq!(encode(&true), Ok(vec![1]));
    assert_eq!(encode(&false), Ok(vec![0]));
    assert_eq!(decode::<u8>(&[0x12]), Ok(0x12));
    assert_eq!(decode::<i8>(&[0x80]), Ok(i8::MIN));
    assert_eq!(decode::<u16>(&[0x12, 0x34]), Ok(0x1234));
    assert_eq!(decode::<i16>(&[0x80, 0x00]), Ok(i16::MIN));
    assert_eq!(decode::<i16>(&[0x7f, 0xff]), Ok(i16::MAX));
    assert_eq!(decode::<u32>(&[0xff, 0xff, 0xff, 0xff]), Ok(u32::MAX));
    assert_eq!(decode::<i32>(&[0xff, 0xff, 0xff, 0xff]), Ok(-1));
    assert_eq!(decode::<i32>(&[0x7f, 0xff, 0xff, 0xff]), Ok(i32::MAX));
    assert_eq!(decode::<bool>(&[0]), Ok(false));
    assert_eq!(decode::<bool>(&[2]), Ok(true));
    assert_eq!(decode::<u32>(&[1, 2, 3]), Err(ReadError::BufferUnderrun));
    assert_eq!(decode::<Window>(&[0, 0, 1, 0]), Ok(Window::new(256)));
    assert_eq!(Window::new(7).id(), 7);
    assert_eq!(Window::empty().id(), 0);
    assert_eq!(7u32.x11_size() + 7u16.x11_size() + 7u8.x11_size(), 7);
    assert_eq!((-7i32).x11_size() + (-7i16).x11_size() + (-7i8).x11_size(), 7);
    assert_eq!(true.x11_size() + Window::new(1).x11_size(), 5);
}

#[test]
fn a_value_is_read_off_the_front_and_written_at_the_back() {
    let mut r = Reader::new(&[0, 1, 0xff, 0xfe, 9]);
    assert_eq!(u16::read_from(&mut r), Ok(1));
    assert_eq!(i16::read_from(&mut r), Ok(-2));
    assert_eq!(r.remaining(), 1);
    let mut w = Writer::new();
    assert_eq!(1u16.write_to(&mut w), Ok(()));
    assert_eq!((-2i16).write_to(&mut w), Ok(()));
    assert_eq!(w.into_vec(), vec![0, 1, 0xff, 0xfe]);
}
