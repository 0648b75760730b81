use x11_codec::buffer::{Reader, Writer};
use x11_codec::definition::header::{BasicStructMetadata, Event, Header, Reply, Request};
use x11_codec::definition::item::{
    accepts, count_strings, find_metabyte, is_well_formed, measure, none_is_metabyte, pad,
    read_items, write_items, CountWidth, Item,
};
use x11_codec::definition::message::{Message, Struct, StructMetadata};
use x11_codec::definition::variant::{Case, Enum, Variant};
use x11_codec::definition::{Definition, Definitions};
use x11_codec::error::{MessageError, ReadError, WriteError};

fn field(size: usize) -> Item {
    Item::Field { size, metabyte: false }
}

fn a_b5_c() -> Enum {
    Enum {
        variants: vec![
            Variant { discriminant: None, items: vec![] },
            Variant { discriminant: Some(5), items: vec![field(2)] },
            Variant { discriminant: None, items: vec![field(1), Item::Unused(2)] },
        ],
    }
}

fn written(definition: &Enum, case: &Case) -> Vec<u8> {
    assert!(definition.is_well_formed());
    assert!(definition.accepts(case));
    let mut w = Writer::new();
    definition.write_to(case, &mut w).expect("room for the value");
    w.into_vec()
}

#[test]
fn discriminants_continue_from_the_one_that_is_named() {
    let definition = a_b5_c();
    assert_eq!(definition.discriminants(), vec![0, 5, 6]);
    assert_eq!(definition.discriminant(0), 0);
    assert_eq!(definition.discriminant(1), 5);
    assert_eq!(definition.discriminant(2), 6);
    assert_eq!(written(&definition, &Case { variant: 0, values: vec![] }), vec![0]);
    assert_eq!(
        written(&definition, &Case { variant: 1, values: vec![vec![7, 8]] }),
        vec![5, 7, 8]
    );
    assert_eq!(
        written(&definition, &Case { variant: 2, values: vec![vec![9], vec![]] }),
        vec![6, 9, 0, 0]
    );
}

#[test]
fn the_discriminant_tells_the_case() {
    let definition = a_b5_c();
    assert_eq!(definition.case_of(6), Some(2));
    assert_eq!(definition.case_of(2), None);
    let mut r = Reader::new(&[6, 9, 0xaa, 0xbb, 0xcc]);
    assert_eq!(
        definition.read_from(&mut r),
        Ok(Case { variant: 2, values: vec![vec![9], vec![]] })
    );
    assert_eq!(r.remaining(), 1);
}

#[test]
fn a_discriminant_of_no_case_is_not_recognized() {
    let definition = a_b5_c();
    let mut r = Reader::new(&[2, 0, 0, 0]);
    assert_eq!(definition.read_from(&mut r), Err(ReadError::UnrecognizedDiscriminant(2)));
    let mut empty = Reader::new(&[]);
    assert_eq!(definition.read_from(&mut empty), Err(ReadError::BufferUnderrun));
    let mut short = Reader::new(&[5, 1]);
    assert_eq!(definition.read_from(&mut short), Err(ReadError::BufferUnderrun));
}

#[test]
fn a_variant_round_trips_and_takes_one_byte_more_than_its_items() {
    let definition = a_b5_c();
    let case = Case { variant: 1, values: vec![vec![0xde, 0xad]] };
    assert_eq!(definition.x11_size(&case), 3);
    let wire = written(&definition, &case);
    assert_eq!(wire.len(), 3);
    let mut r = Reader::new(&wire);
    assert_eq!(definition.read_from(&mut r), Ok(case));
}

#[test]
fn the_discriminant_after_255_is_zero() {
    let definition = Enum {
        variants: vec![
            Variant { discriminant: Some(255), items: vec![] },
            Variant { discriminant: None, items: vec![] },
            Variant { discriminant: None, items: vec![] },
        ],
    };
    assert_eq!(definition.discriminants(), vec![255, 0, 1]);
    assert!(definition.is_well_formed());
}

#[test]
fn two_cases_with_one_discriminant_are_not_well_formed() {
    let definition = Enum {
        variants: vec![
            Variant { discriminant: None, items: vec![] },
            Variant { discriminant: None, items: vec![] },
            Variant { discriminant: Some(1), items: vec![] },
        ],
    };
    assert_eq!(definition.discriminants(), vec![0, 1, 1]);
    assert!(!definition.is_well_formed());
    let marked = Enum {
        variants: vec![Variant {
            discriminant: None,
            items: vec![Item::Field { size: 1, metabyte: true }],
        }],
    };
    assert!(!marked.is_well_formed());
}

#[test]
fn a_case_that_is_none_of_the_cases_is_not_accepted() {
    let definition = a_b5_c();
    assert!(!definition.accepts(&Case { variant: 3, values: vec![] }));
    assert!(!definition.accepts(&Case { variant: 1, values: vec![vec![1]] }));
    assert!(definition.accepts(&Case { variant: 1, values: vec![vec![1, 2]] }));
}

#[test]
fn a_request_with_a_body_of_eight_bytes_has_length_three() {
    let request = Request { major_opcode: 1, minor_opcode: None, reply: None };
    assert_eq!(request.length(4 + 8), 3);
    let definition = Struct { metadata: StructMetadata::Request(request), items: vec![field(8)] };
    let message = Message { sequence: 0, values: vec![vec![1, 2, 3, 4, 5, 6, 7, 8]] };
    assert!(definition.is_well_formed());
    assert!(definition.accepts(&message));
    assert_eq!(definition.x11_size(&message), 12);
    assert_eq!(definition.length(&message), Some(3));
    let mut w = Writer::new();
    assert_eq!(definition.write_to(&message, &mut w), Ok(()));
    assert_eq!(w.into_vec(), vec![1, 0, 0, 3, 1, 2, 3, 4, 5, 6, 7, 8]);
}

#[test]
fn a_reply_with_a_body_of_twenty_four_bytes_has_length_zero() {
    let reply = Reply { sequence: true, request: 0 };
    assert_eq!(reply.length(8 + 24), 0);
    assert_eq!(reply.length(8 + 24 + 4), 1);
    let definition = Struct { metadata: StructMetadata::Reply(reply), items: vec![field(24)] };
    let message = Message { sequence: 0x0a0b, values: vec![vec![9; 24]] };
    assert!(definition.accepts(&message));
    assert_eq!(definition.length(&message), Some(0));
    let mut w = Writer::new();
    assert_eq!(definition.write_to(&message, &mut w), Ok(()));
    let wire = w.into_vec();
    assert_eq!(&wire[..8], &[1, 0, 0x0a, 0x0b, 0, 0, 0, 0]);
    assert_eq!(&wire[8..], &[9; 24]);
}

#[test]
fn a_reply_shorter_than_thirty_two_bytes_is_not_accepted_without_padding() {
    let reply = Reply { sequence: true, request: 0 };
    let bare = Struct { metadata: StructMetadata::Reply(reply), items: vec![field(4)] };
    let padded =
        Struct { metadata: StructMetadata::Reply(reply), items: vec![field(4), Item::Pad] };
    assert!(!bare.accepts(&Message { sequence: 0, values: vec![vec![0; 4]] }));
    let message = Message { sequence: 0, values: vec![vec![0; 4], vec![]] };
    assert!(padded.accepts(&message));
    assert_eq!(padded.x11_size(&message), 32);
}

#[test]
fn the_minor_opcode_takes_the_place_of_the_metabyte() {
    let request = Request { major_opcode: 130, minor_opcode: Some(3), reply: None };
    assert_eq!(request.metabyte(9), 3);
    let definition = Struct { metadata: StructMetadata::Request(request), items: vec![field(4)] };
    assert!(definition.is_well_formed());
    let message = Message { sequence: 0, values: vec![vec![0, 0, 0, 1]] };
    let mut w = Writer::new();
    assert_eq!(definition.write_to(&message, &mut w), Ok(()));
    let wire = w.into_vec();
    assert_eq!(wire, vec![130, 3, 0, 2, 0, 0, 0, 1]);
    assert_eq!(definition.read_from(&mut Reader::new(&wire)), Ok(message));
    assert_eq!(
        definition.read_from(&mut Reader::new(&[130, 4, 0, 2, 0, 0, 0, 1])),
        Err(ReadError::UnrecognizedDiscriminant(4))
    );
    let marked = Struct {
        metadata: StructMetadata::Request(request),
        items: vec![Item::Field { size: 1, metabyte: true }],
    };
    assert!(!marked.is_well_formed());
}

#[test]
fn a_request_of_length_zero_is_an_underrun() {
    let request = Request { major_opcode: 1, minor_opcode: None, reply: None };
    assert_eq!(
        request.read_header(&mut Reader::new(&[1, 0, 0, 0])),
        Err(ReadError::BufferUnderrun)
    );
    assert_eq!(
        request.read_header(&mut Reader::new(&[1, 7, 0, 2, 0xff])),
        Ok(Header { metabyte: 7, sequence: 0, body: 4 })
    );
}

#[test]
fn an_event_with_a_sequence_number_has_a_header_of_four_bytes() {
    let event = Event { code: 2, sequence: true };
    let definition = Struct {
        metadata: StructMetadata::Event(event),
        items: vec![Item::Field { size: 1, metabyte: true }, field(4), Item::Pad],
    };
    assert!(definition.is_well_formed());
    let message = Message { sequence: 0x0304, values: vec![vec![38], vec![1, 2, 3, 4], vec![]] };
    assert!(definition.accepts(&message));
    assert_eq!(definition.x11_size(&message), 32);
    assert_eq!(definition.length(&message), None);
    let mut w = Writer::new();
    assert_eq!(definition.write_to(&message, &mut w), Ok(()));
    let wire = w.into_vec();
    let mut expected = vec![2, 38, 3, 4, 1, 2, 3, 4];
    expected.extend([0; 24]);
    assert_eq!(wire, expected);
    let mut r = Reader::new(&wire);
    assert_eq!(definition.read_from(&mut r), Ok(message));
    assert_eq!(r.remaining(), 0);
    assert_eq!(
        definition.read_from(&mut Reader::new(&wire[..31])),
        Err(ReadError::BufferUnderrun)
    );
    assert_eq!(
        definition.read_from(&mut Reader::new(&[3; 32])),
        Err(ReadError::UnrecognizedDiscriminant(3))
    );
}

#[test]
fn an_event_without_a_sequence_number_has_a_header_of_one_byte() {
    let event = Event { code: 11, sequence: false };
    let definition = Struct { metadata: StructMetadata::Event(event), items: vec![field(31)] };
    assert!(definition.is_well_formed());
    let message = Message { sequence: 0, values: vec![vec![0x55; 31]] };
    assert!(definition.accepts(&message));
    assert!(!definition.accepts(&Message { sequence: 1, values: vec![vec![0x55; 31]] }));
    let mut w = Writer::new();
    assert_eq!(definition.write_to(&message, &mut w), Ok(()));
    let wire = w.into_vec();
    assert_eq!(wire.len(), 32);
    assert_eq!(wire[0], 11);
    assert_eq!(definition.read_from(&mut Reader::new(&wire)), Ok(message));
    let marked = Struct {
        metadata: StructMetadata::Event(event),
        items: vec![Item::Field { size: 1, metabyte: true }, field(30)],
    };
    assert!(!marked.is_well_formed());
}

#[test]
fn a_reply_may_leave_its_sequence_number_to_the_caller() {
    let reply = Reply { sequence: false, request: 0 };
    let definition =
        Struct { metadata: StructMetadata::Reply(reply), items: vec![field(4), Item::Pad] };
    let message = Message { sequence: 0, values: vec![vec![1, 2, 3, 4], vec![]] };
    assert!(definition.accepts(&message));
    assert!(!definition.accepts(&Message { sequence: 5, ..message.clone() }));
    assert_eq!(definition.x11_size(&message), 32);
    let mut w = Writer::new();
    assert_eq!(definition.write_to(&message, &mut w), Ok(()));
    let wire = w.into_vec();
    let mut expected = vec![1, 0, 0, 0, 0, 0, 1, 2, 3, 4];
    expected.extend([0; 20]);
    assert_eq!(wire, expected);
    assert_eq!(definition.read_from(&mut Reader::new(&wire)), Ok(message));
}

#[test]
fn a_plain_record_has_no_header() {
    let definition = Struct {
        metadata: StructMetadata::Struct(BasicStructMetadata {}),
        items: vec![field(2), Item::Unused(1), field(1)],
    };
    assert!(definition.is_well_formed());
    let message = Message { sequence: 0, values: vec![vec![1, 2], vec![], vec![3]] };
    assert!(definition.accepts(&message));
    assert_eq!(definition.x11_size(&message), 4);
    assert_eq!(definition.length(&message), None);
    let mut w = Writer::new();
    assert_eq!(definition.write_to(&message, &mut w), Ok(()));
    assert_eq!(w.into_vec(), vec![1, 2, 0, 3]);
    let mut r = Reader::new(&[1, 2, 0xee, 3, 4, 5]);
    assert_eq!(definition.read_from(&mut r), Ok(message));
    assert_eq!(r.remaining(), 2);
    let marked = Struct {
        metadata: StructMetadata::Struct(BasicStructMetadata {}),
        items: vec![Item::Field { size: 1, metabyte: true }],
    };
    assert!(!marked.is_well_formed());
}

#[test]
fn at_most_one_item_travels_in_the_header() {
    let one = vec![Item::Field { size: 1, metabyte: true }, field(4)];
    let two = vec![
        Item::Field { size: 1, metabyte: true },
        field(4),
        Item::Field { size: 1, metabyte: true },
    ];
    let wide = vec![Item::Field { size: 2, metabyte: true }];
    assert!(is_well_formed(&one));
    assert!(!is_well_formed(&two));
    assert!(!is_well_formed(&wide));
}

#[test]
fn a_list_and_its_count_name_one_another() {
    let good = vec![
        Item::Let { width: CountWidth::U16, list: 2, metabyte: false },
        field(2),
        Item::List { count: 0, unit: 4 },
    ];
    let no_count = vec![field(2), Item::List { count: 0, unit: 4 }];
    let count_after = vec![
        Item::List { count: 1, unit: 4 },
        Item::Let { width: CountWidth::U16, list: 0, metabyte: false },
    ];
    let no_list = vec![Item::Let { width: CountWidth::U16, list: 1, metabyte: false }, field(1)];
    let out_of_range = vec![Item::Let { width: CountWidth::U16, list: 7, metabyte: false }];
    let no_unit = vec![
        Item::Let { width: CountWidth::U16, list: 1, metabyte: false },
        Item::List { count: 0, unit: 0 },
    ];
    let wide_in_header = vec![
        Item::Let { width: CountWidth::U16, list: 1, metabyte: true },
        Item::List { count: 0, unit: 1 },
    ];
    let rest_not_last = vec![Item::Rest, field(1)];
    assert!(is_well_formed(&good));
    assert!(!is_well_formed(&no_count));
    assert!(!is_well_formed(&count_after));
    assert!(!is_well_formed(&no_list));
    assert!(!is_well_formed(&out_of_range));
    assert!(!is_well_formed(&no_unit));
    assert!(!is_well_formed(&wide_in_header));
    assert!(!is_well_formed(&rest_not_last));
    assert!(is_well_formed(&vec![field(1), Item::Rest]));
    assert!(is_well_formed(&Vec::new()));
}

#[test]
fn the_count_field_is_the_number_of_elements() {
    for (width, expected) in [
        (CountWidth::U8, vec![3u8]),
        (CountWidth::U16, vec![0, 3]),
        (CountWidth::U32, vec![0, 0, 0, 3]),
    ] {
        let items = vec![
            Item::Let { width, list: 1, metabyte: false },
            Item::List { count: 0, unit: 2 },
        ];
        let values = vec![vec![], vec![1, 2, 3, 4, 5, 6]];
        assert!(is_well_formed(&items));
        assert!(accepts(&items, &values));
        let mut w = Writer::new();
        assert_eq!(write_items(&items, &values, 0, 0, &mut w), Ok(()));
        let wire = w.into_vec();
        assert_eq!(&wire[..expected.len()], &expected[..]);
        assert_eq!(&wire[expected.len()..], &[1, 2, 3, 4, 5, 6]);
        assert_eq!(measure(&items, &values, 0, 0), Some(wire.len()));
        assert_eq!(read_items(&items, &mut Reader::new(&wire), 0, 0, 0), Ok(values));
        let short = &wire[..wire.len() - 1];
        assert_eq!(
            read_items(&items, &mut Reader::new(short), 0, 0, 0),
            Err(ReadError::BufferUnderrun)
        );
    }
}

#[test]
fn a_list_too_long_for_its_count_is_not_accepted() {
    let items = vec![
        Item::Let { width: CountWidth::U8, list: 1, metabyte: false },
        Item::List { count: 0, unit: 1 },
    ];
    assert!(accepts(&items, &vec![vec![], vec![0; 255]]));
    assert!(!accepts(&items, &vec![vec![], vec![0; 256]]));
    let pairs = vec![
        Item::Let { width: CountWidth::U8, list: 1, metabyte: false },
        Item::List { count: 0, unit: 2 },
    ];
    assert!(!accepts(&pairs, &vec![vec![], vec![0; 3]]));
    assert!(!accepts(&pairs, &vec![vec![1], vec![0; 4]]));
}

#[test]
fn padding_brings_a_message_to_its_least_length_or_to_a_whole_unit() {
    assert_eq!(pad(0, 0), 0);
    assert_eq!(pad(5, 0), 3);
    assert_eq!(pad(6, 0), 2);
    assert_eq!(pad(7, 0), 1);
    assert_eq!(pad(8, 0), 0);
    assert_eq!(pad(9, 32), 23);
    assert_eq!(pad(32, 32), 0);
    assert_eq!(pad(33, 32), 3);
}

#[test]
fn a_message_that_does_not_fit_the_sink_is_refused() {
    let request = Request { major_opcode: 1, minor_opcode: None, reply: None };
    let definition = Struct { metadata: StructMetadata::Request(request), items: vec![field(4)] };
    let message = Message { sequence: 0, values: vec![vec![0; 4]] };
    for limit in 0..8 {
        let mut w = Writer::with_limit(limit);
        assert_eq!(definition.write_to(&message, &mut w), Err(WriteError::SinkExhausted));
    }
    let mut w = Writer::with_limit(8);
    assert_eq!(definition.write_to(&message, &mut w), Ok(()));
}

#[test]
fn a_request_and_its_reply_name_one_another() {
    let request = |reply| {
        Definition::Struct(Struct {
            metadata: StructMetadata::Request(Request {
                major_opcode: 3,
                minor_opcode: None,
                reply,
            }),
            items: vec![field(4)],
        })
    };
    let reply = |request| {
        Definition::Struct(Struct {
            metadata: StructMetadata::Reply(Reply { sequence: true, request }),
            items: vec![Item::Pad],
        })
    };
    assert!(Definitions(vec![request(Some(1)), reply(0)]).is_well_formed());
    assert!(Definitions(vec![request(None), Definition::Enum(a_b5_c())]).is_well_formed());
    assert!(!Definitions(vec![request(Some(1)), reply(1)]).is_well_formed());
    assert!(!Definitions(vec![request(None), reply(0)]).is_well_formed());
    assert!(!Definitions(vec![request(Some(2)), reply(0)]).is_well_formed());
    assert!(!Definitions(vec![request(Some(0))]).is_well_formed());
    assert!(!Definitions(vec![Definition::Struct(Struct {
        metadata: StructMetadata::Struct(BasicStructMetadata {}),
        items: vec![Item::Rest, field(1)],
    })])
    .is_well_formed());
}

#[test]
fn strings_are_counted_by_their_lengths() {
    assert_eq!(count_strings(&vec![]), Some(0));
    assert_eq!(count_strings(&vec![0]), Some(1));
    assert_eq!(count_strings(&vec![0, 0, 0]), Some(3));
    assert_eq!(count_strings(&vec![2, 9, 9, 1, 9]), Some(2));
    assert_eq!(count_strings(&vec![2, 9]), None);
    assert_eq!(count_strings(&vec![2, 9, 9, 1]), None);
    assert_eq!(count_strings(&vec![255]), None);
}

#[test]
fn a_list_of_strings_is_read_string_by_string() {
    let items = vec![
        Item::Let { width: CountWidth::U8, list: 1, metabyte: false },
        Item::Strings { count: 0 },
        Item::Field { size: 1, metabyte: false },
    ];
    assert!(is_well_formed(&items));
    let values = vec![vec![], vec![1, b'a', 0, 2, b'b', b'c'], vec![0xee]];
    assert!(accepts(&items, &values));
    let mut w = Writer::new();
    assert_eq!(write_items(&items, &values, 0, 0, &mut w), Ok(()));
    let wire = w.into_vec();
    assert_eq!(wire, vec![3, 1, b'a', 0, 2, b'b', b'c', 0xee]);
    let mut r = Reader::new(&wire);
    assert_eq!(read_items(&items, &mut r, 0, 0, 0), Ok(values));
    assert_eq!(
        read_items(&items, &mut Reader::new(&[2, 1, b'a', 3, b'b']), 0, 0, 0),
        Err(ReadError::BufferUnderrun)
    );
    assert_eq!(
        read_items(&items, &mut Reader::new(&[2, 1, b'a']), 0, 0, 0),
        Err(ReadError::BufferUnderrun)
    );
    assert!(!is_well_formed(&vec![Item::Strings { count: 0 }]));
    assert!(!is_well_formed(&vec![
        Item::Let { width: CountWidth::U8, list: 2, metabyte: false },
        Item::Strings { count: 0 },
    ]));
}

#[test]
fn the_byte_in_the_header_is_that_of_the_marked_item() {
    let field =
        vec![Item::Field { size: 2, metabyte: false }, Item::Field { size: 1, metabyte: true }];
    assert_eq!(find_metabyte(&field, &vec![vec![1, 2], vec![7]]), 7);
    assert!(!none_is_metabyte(&field));
    let counted = vec![
        Item::Let { width: CountWidth::U8, list: 1, metabyte: true },
        Item::List { count: 0, unit: 2 },
    ];
    assert_eq!(find_metabyte(&counted, &vec![vec![], vec![0; 6]]), 3);
    let strings = vec![
        Item::Let { width: CountWidth::U8, list: 1, metabyte: true },
        Item::Strings { count: 0 },
    ];
    assert_eq!(find_metabyte(&strings, &vec![vec![], vec![0, 1, 9]]), 2);
    let none = vec![Item::Field { size: 2, metabyte: false }, Item::Pad];
    assert_eq!(find_metabyte(&none, &vec![vec![1, 2], vec![]]), 0);
    assert!(none_is_metabyte(&none));
}

#[test]
fn a_checked_write_says_what_is_wrong() {
    let request = Request { major_opcode: 1, minor_opcode: None, reply: None };
    let good = Struct { metadata: StructMetadata::Request(request), items: vec![field(4)] };
    let bad =
        Struct { metadata: StructMetadata::Request(request), items: vec![Item::Rest, field(4)] };
    let message = Message { sequence: 0, values: vec![vec![0; 4]] };
    let mut w = Writer::with_limit(8);
    assert_eq!(bad.try_write_to(&message, &mut w), Err(MessageError::Definition));
    assert_eq!(
        good.try_write_to(&Message { sequence: 0, values: vec![vec![0; 3]] }, &mut w),
        Err(MessageError::Value)
    );
    assert_eq!(good.try_write_to(&message, &mut w), Ok(()));
    assert_eq!(
        good.try_write_to(&message, &mut w),
        Err(MessageError::Write(WriteError::SinkExhausted))
    );
    let wire = w.into_vec();
    assert_eq!(wire, vec![1, 0, 0, 2, 0, 0, 0, 0]);
    assert_eq!(good.try_read_from(&mut Reader::new(&wire)), Ok(message));
    assert_eq!(bad.try_read_from(&mut Reader::new(&wire)), Err(MessageError::Definition));
    assert_eq!(
        good.try_read_from(&mut Reader::new(&wire[..5])),
        Err(MessageError::Read(ReadError::BufferUnderrun))
    );
    assert_eq!(
        good.try_read_from(&mut Reader::new(&[9, 0, 0, 2, 0, 0, 0, 0])),
        Err(MessageError::Read(ReadError::UnrecognizedDiscriminant(9)))
    );
}

#[test]
fn a_checked_write_of_a_variant_says_what_is_wrong() {
    let definition = a_b5_c();
    let twice = Enum {
        variants: vec![
            Variant { discriminant: Some(1), items: vec![] },
            Variant { discriminant: Some(1), items: vec![] },
        ],
    };
    let case = Case { variant: 1, values: vec![vec![1, 2]] };
    let mut w = Writer::with_limit(3);
    assert_eq!(twice.try_write_to(&case, &mut w), Err(MessageError::Definition));
    assert_eq!(
        definition.try_write_to(&Case { variant: 9, values: vec![] }, &mut w),
        Err(MessageError::Value)
    );
    assert_eq!(definition.try_write_to(&case, &mut w), Ok(()));
    assert_eq!(
        definition.try_write_to(&case, &mut w),
        Err(MessageError::Write(WriteError::SinkExhausted))
    );
    let wire = w.into_vec();
    assert_eq!(definition.try_read_from(&mut Reader::new(&wire)), Ok(case));
    assert_eq!(twice.try_read_from(&mut Reader::new(&wire)), Err(MessageError::Definition));
    assert_eq!(
        definition.try_read_from(&mut Reader::new(&[4])),
        Err(MessageError::Read(ReadError::UnrecognizedDiscriminant(4)))
    );
}

#[test]
fn a_discriminant_of_no_case_is_the_one_byte_that_was_read() {
    let definition = a_b5_c();
    let mut r = Reader::new(&[2, 7, 8, 9]);
    assert_eq!(definition.read_from(&mut r), Err(ReadError::UnrecognizedDiscriminant(2)));
    assert_eq!(r.remaining(), 3);
    let mut empty = Reader::new(&[]);
    assert_eq!(definition.read_from(&mut empty), Err(ReadError::BufferUnderrun));
    assert_eq!(empty.remaining(), 0);
}
