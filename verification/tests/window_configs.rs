use x11_codec::buffer::{Reader, Writer};
use x11_codec::common::set::window_configs::{
    StackModeSlot, WindowConfigMask, WindowConfigs, WindowConfigsBuilder,
};
use x11_codec::common::{StackMode, Window};
use x11_codec::error::{ReadError, WriteError};
use x11_codec::wire::{decode, encode, Readable, Writable, X11Size};

fn bytes_of(configs: &WindowConfigs) -> Vec<u8> {
    encode(configs).expect("a set is at most 32 bytes long")
}

#[test]
fn an_empty_set_is_the_mask_and_the_gap() {
    let configs = WindowConfigs::builder().build();
    assert_eq!(configs.x11_size(), 4);
    assert_eq!(bytes_of(&configs), vec![0, 0, 0, 0]);
    assert_eq!(configs.x(), None);
    assert_eq!(configs.stack_mode(), None);
    assert_eq!(configs.sibling(), &None);
}

#[test]
fn slots_follow_the_fixed_order_whatever_the_order_of_the_calls() {
    let mut builder = WindowConfigsBuilder::new();
    builder.stack_mode(StackMode::Opposite).height(0x0102).x(7);
    let configs = builder.build();
    assert_eq!(configs.mask().bits(), 0x0001 | 0x0008 | 0x0040);
    assert_eq!(configs.x11_size(), 16);
    assert_eq!(
        bytes_of(&configs),
        vec![0x00, 0x49, 0, 0, 0, 0, 0, 7, 0, 0, 0x01, 0x02, 0, 0, 0, 4]
    );
}

#[test]
fn every_option_takes_a_four_byte_slot() {
    let mut builder = WindowConfigs::builder();
    builder
        .x(-2)
        .y(3)
        .width(640)
        .height(480)
        .border_width(1)
        .sibling(Window::new(0x0a0b0c0d))
        .stack_mode(StackMode::Below);
    let configs = builder.build();
    assert_eq!(configs.x11_size(), 32);
    assert_eq!(
        bytes_of(&configs),
        vec![
            0x00, 0x7f, 0, 0, // mask, gap
            0xff, 0xff, 0xff, 0xfe, // x
            0, 0, 0, 3, // y
            0, 0, 0x02, 0x80, // width
            0, 0, 0x01, 0xe0, // height
            0, 0, 0, 1, // border width
            0x0a, 0x0b, 0x0c, 0x0d, // sibling
            0, 0, 0, 1, // stack mode
        ]
    );
}

#[test]
fn setting_an_option_twice_keeps_one_slot() {
    let mut builder = WindowConfigs::builder();
    builder.width(1).width(2);
    let configs = builder.build();
    assert_eq!(configs.x11_size(), 8);
    assert_eq!(configs.width(), Some(2));
    assert_eq!(bytes_of(&configs), vec![0, 4, 0, 0, 0, 0, 0, 2]);
}

#[test]
fn a_set_round_trips_with_exactly_its_subset() {
    let mut builder = WindowConfigs::builder();
    builder.y(-300).border_width(0).sibling(Window::new(9)).stack_mode(StackMode::BottomIf);
    let configs = builder.build();
    let bytes = bytes_of(&configs);
    assert_eq!(bytes.len(), configs.x11_size());
    let back: WindowConfigs = decode(&bytes).expect("the bytes of a set");
    assert_eq!(back, configs);
    assert_eq!(back.x(), None);
    assert_eq!(back.y(), Some(-300));
    assert_eq!(back.width(), None);
    assert_eq!(back.height(), None);
    assert_eq!(back.border_width(), Some(0));
    assert_eq!(back.sibling(), &Some(Window::new(9)));
    assert_eq!(back.stack_mode(), Some(&StackMode::BottomIf));
}

#[test]
fn minus_one_survives_its_four_byte_slot() {
    let mut builder = WindowConfigs::builder();
    builder.x(-1);
    let configs = builder.build();
    let bytes = bytes_of(&configs);
    assert_eq!(bytes, vec![0, 1, 0, 0, 0xff, 0xff, 0xff, 0xff]);
    let back: WindowConfigs = decode(&bytes).expect("the bytes of a set");
    assert!(back.is_narrowable());
    assert_eq!(back.x(), Some(-1));
}

#[test]
fn the_extremes_of_sixteen_bits_round_trip() {
    let mut builder = WindowConfigs::builder();
    builder.x(i16::MIN).y(i16::MAX).width(u16::MAX).height(0);
    let configs = builder.build();
    let back: WindowConfigs = decode(&bytes_of(&configs)).expect("the bytes of a set");
    assert_eq!(back.x(), Some(i16::MIN));
    assert_eq!(back.y(), Some(i16::MAX));
    assert_eq!(back.width(), Some(u16::MAX));
    assert_eq!(back.height(), Some(0));
}

#[test]
fn a_slot_too_wide_for_sixteen_bits_is_read_but_not_narrowable() {
    let bytes = [0, 1, 0, 0, 0x00, 0x01, 0x00, 0x00];
    let configs: WindowConfigs = decode(&bytes).expect("a well-formed set");
    assert!(!configs.is_narrowable());
    assert_eq!(configs.x11_size(), 8);
    assert_eq!(encode(&configs), Ok(bytes.to_vec()));
}

#[test]
fn reading_a_set_consumes_exactly_its_bytes() {
    let mut r = Reader::new(&[0, 0x21, 0xaa, 0xbb, 0, 0, 0, 5, 0, 0, 1, 0, 0xee, 0xee]);
    let configs = WindowConfigs::read_from(&mut r).expect("a well-formed set");
    assert_eq!(r.remaining(), 2);
    assert_eq!(configs.x(), Some(5));
    assert_eq!(configs.sibling(), &Some(Window::new(256)));
    assert_eq!(configs.x11_size(), 12);
}

#[test]
fn bits_of_no_option_are_dropped() {
    let configs: WindowConfigs = decode(&[0xff, 0x80, 0, 0]).expect("a well-formed set");
    assert_eq!(configs.mask(), WindowConfigMask::empty());
    assert_eq!(configs.x11_size(), 4);
}

#[test]
fn a_missing_slot_is_an_underrun() {
    assert_eq!(decode::<WindowConfigs>(&[]), Err(ReadError::BufferUnderrun));
    assert_eq!(decode::<WindowConfigs>(&[0, 0]), Err(ReadError::BufferUnderrun));
    assert_eq!(decode::<WindowConfigs>(&[0, 0, 0]), Err(ReadError::BufferUnderrun));
    assert_eq!(
        decode::<WindowConfigs>(&[0, 3, 0, 0, 0, 0, 0, 1, 0, 0, 0]),
        Err(ReadError::BufferUnderrun)
    );
}

#[test]
fn an_unknown_stack_mode_is_an_unrecognized_discriminant() {
    assert_eq!(
        decode::<WindowConfigs>(&[0, 0x40, 0, 0, 0, 0, 0, 5]),
        Err(ReadError::UnrecognizedDiscriminant(5))
    );
    let configs: WindowConfigs = decode(&[0, 0x40, 0, 0, 0, 0, 0, 4]).expect("a known mode");
    assert_eq!(configs.stack_mode(), Some(&StackMode::Opposite));
}

#[test]
fn a_set_that_does_not_fit_is_refused() {
    let mut builder = WindowConfigs::builder();
    builder.x(1).y(2);
    let configs = builder.build();
    let mut small = Writer::with_limit(11);
    assert_eq!(configs.write_to(&mut small), Err(WriteError::SinkExhausted));
    let mut exact = Writer::with_limit(12);
    assert_eq!(configs.write_to(&mut exact), Ok(()));
    assert_eq!(exact.into_vec().len(), 12);
}

#[test]
fn a_clone_is_equal() {
    let mut builder = WindowConfigs::builder();
    builder.height(10);
    let other = builder.clone();
    assert_eq!(builder, other);
    let configs = builder.build();
    assert_eq!(configs.clone(), configs);
    assert_eq!(WindowConfigsBuilder::default(), WindowConfigsBuilder::new());
}

#[test]
fn a_write_that_fails_leaves_what_was_written_before_it() {
    let mut builder = WindowConfigs::builder();
    builder.x(1).y(2);
    let configs = builder.build();
    let mut w = Writer::with_limit(9);
    assert_eq!(w.write_raw(&[0xaa, 0xbb]), Ok(()));
    assert_eq!(configs.write_to(&mut w), Err(WriteError::SinkExhausted));
    let bytes = w.into_vec();
    assert!(bytes.len() <= 9);
    assert_eq!(&bytes[..2], &[0xaa, 0xbb]);
}

#[test]
fn a_read_that_fails_never_goes_back() {
    let bytes = [0xee, 0, 3, 0, 0, 0, 0, 0, 1, 0, 0];
    let mut r = Reader::new(&bytes);
    assert_eq!(r.read_u8(), Ok(0xee));
    let before = r.remaining();
    assert_eq!(WindowConfigs::read_from(&mut r), Err(ReadError::BufferUnderrun));
    assert!(r.remaining() <= before);
}

#[test]
fn the_builder_gives_no_set_with_a_sibling_and_no_stack_mode() {
    let mut builder = WindowConfigs::builder();
    assert!(builder.stacks_sibling());
    assert!(builder.clone().try_build().is_some());
    builder.sibling(Window::new(1));
    assert!(!builder.stacks_sibling());
    assert_eq!(builder.clone().try_build(), None);
    builder.stack_mode(StackMode::TopIf);
    assert!(builder.stacks_sibling());
    let built = builder.clone().try_build().expect("a sibling with its stack mode");
    assert_eq!(built, builder.build());
    assert!(built.stacks_sibling());
    assert_eq!(built.sibling(), &Some(Window::new(1)));
    assert_eq!(built.stack_mode(), Some(&StackMode::TopIf));
}

#[test]
fn the_stack_mode_may_come_before_the_sibling() {
    let mut builder = WindowConfigs::builder();
    builder.stack_mode(StackMode::Below);
    assert!(builder.stacks_sibling());
    builder.sibling(Window::new(2));
    assert!(builder.stacks_sibling());
    let configs = builder.build();
    assert!(configs.stacks_sibling());
    assert_eq!(bytes_of(&configs), vec![0, 0x60, 0, 0, 0, 0, 0, 2, 0, 0, 0, 1]);
}

#[test]
fn a_set_that_was_read_may_name_a_sibling_alone() {
    let alone: WindowConfigs = decode(&[0, 0x20, 0, 0, 0, 0, 0, 9]).expect("a well-formed set");
    assert!(!alone.stacks_sibling());
    assert_eq!(alone.sibling(), &Some(Window::new(9)));
    assert_eq!(alone.stack_mode(), None);
    assert_eq!(encode(&alone), Ok(vec![0, 0x20, 0, 0, 0, 0, 0, 9]));
}

#[test]
fn each_slot_is_asked_for_its_own_fit() {
    // x fits, the width does not.
    let bytes = [0, 5, 0, 0, 0xff, 0xff, 0xff, 0xff, 0x00, 0x01, 0x00, 0x00];
    let configs: WindowConfigs = decode(&bytes).expect("a well-formed set");
    assert!(configs.x_fits());
    assert!(configs.y_fits());
    assert!(!configs.width_fits());
    assert!(configs.height_fits());
    assert!(configs.border_width_fits());
    assert!(!configs.is_narrowable());
    assert_eq!(configs.x(), Some(-1));
    assert_eq!(configs.y(), None);
    assert_eq!(configs.height(), None);
    let wide: WindowConfigs =
        decode(&[0, 0x1b, 0, 0, 0, 0, 0x80, 0, 0xff, 0xff, 0x7f, 0xff, 0, 1, 0, 0, 0, 1, 0, 0])
            .expect("a well-formed set");
    assert!(!wide.x_fits());
    assert!(!wide.y_fits());
    assert!(!wide.height_fits());
    assert!(!wide.border_width_fits());
    assert!(wide.width_fits());
    assert_eq!(wide.width(), None);
}

#[test]
fn a_stack_mode_slot_is_read_whatever_its_code() {
    let mut r = Reader::new(&[0, 0, 0, 9, 0xaa, 0xbb]);
    assert_eq!(StackModeSlot::read_from(&mut r), Err(ReadError::UnrecognizedDiscriminant(9)));
    assert_eq!(r.remaining(), 2);
    let mut known = Reader::new(&[0, 0, 0, 3, 0xaa]);
    assert_eq!(StackModeSlot::read_from(&mut known), Ok(StackModeSlot(StackMode::BottomIf)));
    assert_eq!(known.remaining(), 1);
    let mut short = Reader::new(&[0, 0, 0]);
    assert_eq!(StackModeSlot::read_from(&mut short), Err(ReadError::BufferUnderrun));
    assert_eq!(short.remaining(), 3);
    let mut w = Writer::new();
    assert_eq!(StackModeSlot(StackMode::Opposite).write_to(&mut w), Ok(()));
    assert_eq!(w.into_vec(), vec![0, 0, 0, 4]);
}

#[test]
fn an_unknown_stack_mode_is_found_once_the_whole_set_is_read() {
    // x and the stack mode are declared; two bytes follow the set.
    let bytes = [0, 0x41, 0, 0, 0, 0, 0, 7, 0, 0, 0, 5, 0xaa, 0xbb];
    let mut r = Reader::new(&bytes);
    assert_eq!(WindowConfigs::read_from(&mut r), Err(ReadError::UnrecognizedDiscriminant(5)));
    assert_eq!(r.remaining(), 2);
    assert_eq!(r.read_u8(), Ok(0xaa));
}
