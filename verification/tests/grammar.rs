use x11_codec::definition::grammar::{
    find_name, metadata, read_shape, Expected, Shape, SyntaxError, Token,
};
use x11_codec::definition::header::{BasicStructMetadata, Event, Reply, Request};
use x11_codec::definition::message::StructMetadata;

fn word(text: &str) -> Token {
    Token::Word(text.as_bytes().to_vec())
}

fn wrong(at: usize, expected: Expected) -> Result<(Shape, usize), SyntaxError> {
    Err(SyntaxError { at, expected })
}

#[test]
fn without_a_colon_the_definition_is_a_plain_record() {
    assert_eq!(read_shape(&vec![], 0), Ok((Shape::Struct, 0)));
    assert_eq!(read_shape(&vec![Token::Other, Token::Colon], 0), Ok((Shape::Struct, 0)));
    assert_eq!(read_shape(&vec![Token::Colon], 1), Ok((Shape::Struct, 1)));
}

#[test]
fn an_event_has_a_code() {
    let tokens =
        vec![Token::Colon, word("Event"), Token::Open, Token::Number(12), Token::Close, Token::Other];
    assert_eq!(read_shape(&tokens, 0), Ok((Shape::Event { code: 12 }, 5)));
    assert_eq!(read_shape(&tokens[..4].to_vec(), 0), wrong(4, Expected::Close));
    assert_eq!(read_shape(&tokens[..3].to_vec(), 0), wrong(3, Expected::Number));
    assert_eq!(read_shape(&tokens[..2].to_vec(), 0), wrong(2, Expected::Open));
    assert_eq!(read_shape(&tokens[..1].to_vec(), 0), wrong(1, Expected::MessageType));
}

#[test]
fn a_request_has_a_major_opcode_and_may_have_more() {
    let plain = vec![Token::Colon, word("Request"), Token::Open, Token::Number(4), Token::Close];
    assert_eq!(
        read_shape(&plain, 0),
        Ok((Shape::Request { major_opcode: 4, minor_opcode: None, reply: None }, 5))
    );
    let full = vec![
        Token::Other,
        Token::Colon,
        word("Request"),
        Token::Open,
        Token::Number(130),
        Token::Comma,
        Token::Number(2),
        Token::Close,
        Token::Arrow,
        word("QueryReply"),
        Token::Other,
    ];
    assert_eq!(
        read_shape(&full, 1),
        Ok((Shape::Request { major_opcode: 130, minor_opcode: Some(2), reply: Some(9) }, 10))
    );
    let no_minor = vec![
        Token::Colon,
        word("Request"),
        Token::Open,
        Token::Number(1),
        Token::Comma,
        Token::Close,
    ];
    assert_eq!(read_shape(&no_minor, 0), wrong(5, Expected::Number));
    let no_name =
        vec![Token::Colon, word("Request"), Token::Open, Token::Number(1), Token::Close, Token::Arrow];
    assert_eq!(read_shape(&no_name, 0), wrong(6, Expected::Name));
    let no_close =
        vec![Token::Colon, word("Request"), Token::Open, Token::Number(1), Token::Number(2)];
    assert_eq!(read_shape(&no_close, 0), wrong(4, Expected::Close));
}

#[test]
fn a_reply_names_its_request() {
    let plain = vec![Token::Colon, word("Reply"), word("for"), word("GetGeometry")];
    assert_eq!(read_shape(&plain, 0), Ok((Shape::Reply { sequence: true, request: 3 }, 4)));
    let empty_brackets =
        vec![Token::Colon, word("Reply"), Token::Open, Token::Close, word("for"), word("A")];
    assert_eq!(
        read_shape(&empty_brackets, 0),
        Ok((Shape::Reply { sequence: true, request: 5 }, 6))
    );
    let opted_out = vec![
        Token::Colon,
        word("Reply"),
        Token::Open,
        Token::Question,
        word("sequence"),
        Token::Close,
        word("for"),
        word("A"),
    ];
    assert_eq!(
        read_shape(&opted_out, 0),
        Ok((Shape::Reply { sequence: false, request: 7 }, 8))
    );
}

#[test]
fn after_a_question_mark_comes_sequence() {
    let tokens = vec![
        Token::Colon,
        word("Reply"),
        Token::Open,
        Token::Question,
        word("order"),
        Token::Close,
        word("for"),
        word("A"),
    ];
    assert_eq!(read_shape(&tokens, 0), wrong(4, Expected::Sequence));
    let nothing = vec![Token::Colon, word("Reply"), Token::Open, Token::Question];
    assert_eq!(read_shape(&nothing, 0), wrong(4, Expected::Sequence));
    let not_for = vec![Token::Colon, word("Reply"), word("of"), word("A")];
    assert_eq!(read_shape(&not_for, 0), wrong(2, Expected::For));
    let no_name = vec![Token::Colon, word("Reply"), word("for"), Token::Number(3)];
    assert_eq!(read_shape(&no_name, 0), wrong(3, Expected::Name));
    let stray = vec![Token::Colon, word("Reply"), Token::Open, word("sequence"), Token::Close];
    assert_eq!(read_shape(&stray, 0), wrong(3, Expected::Close));
}

#[test]
fn a_message_type_is_an_event_a_request_or_a_reply() {
    assert_eq!(read_shape(&vec![Token::Colon, word("Error")], 0), wrong(1, Expected::MessageType));
    assert_eq!(read_shape(&vec![Token::Colon, word("event")], 0), wrong(1, Expected::MessageType));
    assert_eq!(read_shape(&vec![Token::Colon, word("Replyx")], 0), wrong(1, Expected::MessageType));
    assert_eq!(read_shape(&vec![Token::Colon, Token::Colon], 0), wrong(1, Expected::MessageType));
}

#[test]
fn names_become_places() {
    let tokens = vec![word("B"), word("C"), Token::Other, word("A")];
    let names = vec![b"A".to_vec(), b"B".to_vec(), b"A".to_vec()];
    assert_eq!(find_name(&tokens, &names, 0), Some(1));
    assert_eq!(find_name(&tokens, &names, 1), None);
    assert_eq!(find_name(&tokens, &names, 2), None);
    assert_eq!(find_name(&tokens, &names, 3), Some(0));
    assert_eq!(find_name(&tokens, &names, 4), None);
    assert_eq!(
        metadata(Shape::Struct, &tokens, &names),
        Some(StructMetadata::Struct(BasicStructMetadata {}))
    );
    assert_eq!(
        metadata(Shape::Event { code: 9 }, &tokens, &names),
        Some(StructMetadata::Event(Event { code: 9, sequence: true }))
    );
    assert_eq!(
        metadata(
            Shape::Request { major_opcode: 3, minor_opcode: None, reply: Some(0) },
            &tokens,
            &names
        ),
        Some(StructMetadata::Request(Request {
            major_opcode: 3,
            minor_opcode: None,
            reply: Some(1)
        }))
    );
    assert_eq!(
        metadata(
            Shape::Request { major_opcode: 3, minor_opcode: Some(1), reply: None },
            &tokens,
            &names
        ),
        Some(StructMetadata::Request(Request {
            major_opcode: 3,
            minor_opcode: Some(1),
            reply: None
        }))
    );
    assert_eq!(
        metadata(Shape::Reply { sequence: false, request: 3 }, &tokens, &names),
        Some(StructMetadata::Reply(Reply { sequence: false, request: 0 }))
    );
    assert_eq!(metadata(Shape::Reply { sequence: true, request: 1 }, &tokens, &names), None);
}
