//! How the shape of a definition is written down.
//!
//! After the name of a record comes nothing, for a plain record, or a colon
//! and one of these:
//!
//! ```text
//! Event(code)
//! Request(major_opcode) -> ReplyName
//! Request(major_opcode, minor_opcode) -> ReplyName
//! Reply for RequestName
//! Reply(?sequence) for RequestName
//! ```
//!
//! The arrow and the name of the reply are left out by a request that has no
//! reply. `?sequence` leaves the sequence number of a reply to the one who
//! writes or reads it.
//!
//! The source is read as tokens. What is a word, a number or a sign is
//! decided by whoever cuts the source into tokens.

use vstd::prelude::*;
use crate::definition::header::{BasicStructMetadata, Event, Reply, Request};
use crate::definition::message::StructMetadata;

verus! {

/// A token of the source of a definition.
#[derive(Clone, Debug, PartialEq, Eq)]
pub enum Token {
    /// A word: a name or a keyword, as its bytes.
    Word(Vec<u8>),
    /// A number that one byte holds.
    Number(u8),
    /// `:`
    Colon,
    /// `,`
    Comma,
    /// `?`
    Question,
    /// `->`
    Arrow,
    /// `(`
    Open,
    /// `)`
    Close,
    /// Any other token.
    Other,
}

/// What was expected where the source went wrong.
#[derive(Clone, Copy, Debug, PartialEq, Eq, Structural)]
pub enum Expected {
    /// A message type: `Event`, `Request` or `Reply`.
    MessageType,
    /// `sequence`, after `?`.
    Sequence,
    /// `(`
    Open,
    /// `)`
    Close,
    /// A number that one byte holds.
    Number,
    /// `for`
    For,
    /// The name of a request or of a reply.
    Name,
}

/// The source of a definition went wrong at the token at `at`.
#[derive(Clone, Copy, Debug, PartialEq, Eq, Structural)]
pub struct SyntaxError {
    /// The place of the token.
    pub at: usize,
    /// What was expected there.
    pub expected: Expected,
}

/// What the source says of the shape of a definition. A request and a reply
/// name one another: the name is the word at the place that is kept.
#[derive(Clone, Copy, Debug, PartialEq, Eq, Structural)]
pub enum Shape {
    /// A plain record.
    Struct,
    /// An event with the code `code`.
    Event { code: u8 },
    /// A request. `reply` is the place of the word that names its reply.
    Request { major_opcode: u8, minor_opcode: Option<u8>, reply: Option<usize> },
    /// A reply. `request` is the place of the word that names its request.
    Reply { sequence: bool, request: usize },
}

/// The bytes of `Event`.
pub open spec fn event_word() -> Seq<u8> {
    seq![0x45u8, 0x76u8, 0x65u8, 0x6eu8, 0x74u8]
}

/// The bytes of `Request`.
pub open spec fn request_word() -> Seq<u8> {
    seq![0x52u8, 0x65u8, 0x71u8, 0x75u8, 0x65u8, 0x73u8, 0x74u8]
}

/// The bytes of `Reply`.
pub open spec fn reply_word() -> Seq<u8> {
    seq![0x52u8, 0x65u8, 0x70u8, 0x6cu8, 0x79u8]
}

/// The bytes of `sequence`.
pub open spec fn sequence_word() -> Seq<u8> {
    seq![0x73u8, 0x65u8, 0x71u8, 0x75u8, 0x65u8, 0x6eu8, 0x63u8, 0x65u8]
}

/// The bytes of `for`.
pub open spec fn for_word() -> Seq<u8> {
    seq![0x66u8, 0x6fu8, 0x72u8]
}

/// Whether the token at `at` is the word `word`.
pub open spec fn is_word(tokens: Seq<Token>, at: int, word: Seq<u8>) -> bool {
    0 <= at < tokens.len() && (tokens[at] matches Token::Word(bytes) && bytes@ == word)
}

/// Whether the token at `at` is a word.
pub open spec fn is_name(tokens: Seq<Token>, at: int) -> bool {
    0 <= at < tokens.len() && tokens[at] is Word
}

/// Whether the token at `at` is the sign `sign`.
pub open spec fn is_sign(tokens: Seq<Token>, at: int, sign: Token) -> bool {
    0 <= at < tokens.len() && tokens[at] == sign
}

/// The number at `at`, if the token there is one.
pub open spec fn number_at(tokens: Seq<Token>, at: int) -> Option<u8> {
    if 0 <= at < tokens.len() {
        match tokens[at] {
            Token::Number(n) => Some(n),
            _ => None,
        }
    } else {
        None
    }
}

/// An error at `at`.
pub open spec fn wrong<T>(at: int, expected: Expected) -> Result<T, SyntaxError> {
    Err(SyntaxError { at: at as usize, expected })
}

/// What the tokens from `at` on say of an event, after the word `Event`: a
/// code in brackets.
pub open spec fn parse_event(tokens: Seq<Token>, at: int) -> Result<(Shape, int), SyntaxError> {
    if !is_sign(tokens, at, Token::Open) {
        wrong(at, Expected::Open)
    } else if number_at(tokens, at + 1) is None {
        wrong(at + 1, Expected::Number)
    } else if !is_sign(tokens, at + 2, Token::Close) {
        wrong(at + 2, Expected::Close)
    } else {
        Ok((Shape::Event { code: number_at(tokens, at + 1)->Some_0 }, at + 3))
    }
}

/// What the tokens from `at` on say of a request, after the word `Request`:
/// in brackets a major opcode and perhaps, after a comma, a minor opcode;
/// then perhaps an arrow and the name of the reply.
pub open spec fn parse_request(tokens: Seq<Token>, at: int) -> Result<(Shape, int), SyntaxError> {
    if !is_sign(tokens, at, Token::Open) {
        wrong(at, Expected::Open)
    } else if number_at(tokens, at + 1) is None {
        wrong(at + 1, Expected::Number)
    } else {
        let major_opcode = number_at(tokens, at + 1)->Some_0;
        let comma = is_sign(tokens, at + 2, Token::Comma);
        let close = if comma {
            at + 4
        } else {
            at + 2
        };
        if comma && number_at(tokens, at + 3) is None {
            wrong(at + 3, Expected::Number)
        } else if !is_sign(tokens, close, Token::Close) {
            wrong(close, Expected::Close)
        } else {
            let minor_opcode = if comma {
                number_at(tokens, at + 3)
            } else {
                None
            };
            if !is_sign(tokens, close + 1, Token::Arrow) {
                Ok((Shape::Request { major_opcode, minor_opcode, reply: None }, close + 1))
            } else if !is_name(tokens, close + 2) {
                wrong(close + 2, Expected::Name)
            } else {
                Ok(
                    (
                        Shape::Request {
                            major_opcode,
                            minor_opcode,
                            reply: Some((close + 2) as usize),
                        },
                        close + 3,
                    ),
                )
            }
        }
    }
}

/// What the tokens from `at` on say of a reply, after the word `Reply`:
/// perhaps brackets, empty or around `?sequence`; then `for` and the name of
/// the request.
pub open spec fn parse_reply(tokens: Seq<Token>, at: int) -> Result<(Shape, int), SyntaxError> {
    let open = is_sign(tokens, at, Token::Open);
    let question = open && is_sign(tokens, at + 1, Token::Question);
    let close = if question {
        at + 3
    } else {
        at + 1
    };
    let next = if open {
        close + 1
    } else {
        at
    };
    if question && !is_word(tokens, at + 2, sequence_word()) {
        wrong(at + 2, Expected::Sequence)
    } else if open && !is_sign(tokens, close, Token::Close) {
        wrong(close, Expected::Close)
    } else if !is_word(tokens, next, for_word()) {
        wrong(next, Expected::For)
    } else if !is_name(tokens, next + 1) {
        wrong(next + 1, Expected::Name)
    } else {
        Ok((Shape::Reply { sequence: !question, request: (next + 1) as usize }, next + 2))
    }
}

/// What the tokens from `at` on say of the shape of a definition, and where
/// the tokens after that begin. Without a colon the definition is a plain
/// record, and no token is taken.
pub open spec fn parse_shape(tokens: Seq<Token>, at: int) -> Result<(Shape, int), SyntaxError> {
    if !is_sign(tokens, at, Token::Colon) {
        Ok((Shape::Struct, at))
    } else if is_word(tokens, at + 1, event_word()) {
        parse_event(tokens, at + 2)
    } else if is_word(tokens, at + 1, request_word()) {
        parse_request(tokens, at + 2)
    } else if is_word(tokens, at + 1, reply_word()) {
        parse_reply(tokens, at + 2)
    } else {
        wrong(at + 1, Expected::MessageType)
    }
}

/// Whether the bytes of `word` are those of `other`.
fn same_bytes(word: &Vec<u8>, other: &[u8]) -> (b: bool)
    ensures
        b == (word@ == other@),
{
    if word.len() != other.len() {
        return false;
    }
    let mut k: usize = 0;
    while k < word.len()
        invariant
            k <= word@.len(),
            word@.len() == other@.len(),
            forall|i: int| 0 <= i < k ==> word@[i] == other@[i],
        decreases word@.len() - k,
    {
        if word[k] != other[k] {
            return false;
        }
        k = k + 1;
    }
    assert(word@ =~= other@);
    true
}

/// Computes [`is_word`].
fn word_at(tokens: &Vec<Token>, at: usize, word: &[u8]) -> (b: bool)
    ensures
        b == is_word(tokens@, at as int, word@),
        b ==> at < usize::MAX,
{
    if at < tokens.len() {
        match &tokens[at] {
            Token::Word(bytes) => same_bytes(bytes, word),
            _ => false,
        }
    } else {
        false
    }
}

/// Computes [`is_name`].
fn name_at(tokens: &Vec<Token>, at: usize) -> (b: bool)
    ensures
        b == is_name(tokens@, at as int),
        b ==> at < usize::MAX,
{
    if at < tokens.len() {
        match &tokens[at] {
            Token::Word(_) => true,
            _ => false,
        }
    } else {
        false
    }
}

/// The sign that a token is, none of which is a word or a number.
#[derive(Clone, Copy, Debug, PartialEq, Eq, Structural)]
pub enum Sign {
    /// `:`
    Colon,
    /// `,`
    Comma,
    /// `?`
    Question,
    /// `->`
    Arrow,
    /// `(`
    Open,
    /// `)`
    Close,
}

impl Sign {
    /// The token of the sign.
    pub open spec fn token(self) -> Token {
        match self {
            Sign::Colon => Token::Colon,
            Sign::Comma => Token::Comma,
            Sign::Question => Token::Question,
            Sign::Arrow => Token::Arrow,
            Sign::Open => Token::Open,
            Sign::Close => Token::Close,
        }
    }
}

/// Computes [`is_sign`].
fn sign_at(tokens: &Vec<Token>, at: usize, sign: Sign) -> (b: bool)
    ensures
        b == is_sign(tokens@, at as int, sign.token()),
        b ==> at < usize::MAX,
{
    if at < tokens.len() {
        match (&tokens[at], sign) {
            (Token::Colon, Sign::Colon) => true,
            (Token::Comma, Sign::Comma) => true,
            (Token::Question, Sign::Question) => true,
            (Token::Arrow, Sign::Arrow) => true,
            (Token::Open, Sign::Open) => true,
            (Token::Close, Sign::Close) => true,
            _ => false,
        }
    } else {
        false
    }
}

/// Computes [`number_at`].
fn number(tokens: &Vec<Token>, at: usize) -> (n: Option<u8>)
    ensures
        n == number_at(tokens@, at as int),
        n is Some ==> at < usize::MAX,
{
    if at < tokens.len() {
        match &tokens[at] {
            Token::Number(n) => Some(*n),
            _ => None,
        }
    } else {
        None
    }
}

/// Reads what the tokens from `at` on say of an event, after the word
/// `Event`.
fn read_event(tokens: &Vec<Token>, at: usize) -> (res: Result<(Shape, usize), SyntaxError>)
    requires
        at <= tokens@.len(),
    ensures
        match parse_event(tokens@, at as int) {
            Ok((shape, next)) => res == Ok::<(Shape, usize), SyntaxError>((shape, next as usize))
                && next <= tokens@.len(),
            Err(e) => res == Err::<(Shape, usize), SyntaxError>(e),
        },
{
    if !sign_at(tokens, at, Sign::Open) {
        return Err(SyntaxError { at, expected: Expected::Open });
    }
    let code = match number(tokens, at + 1) {
        Some(code) => code,
        None => {
            return Err(SyntaxError { at: at + 1, expected: Expected::Number });
        },
    };
    if !sign_at(tokens, at + 2, Sign::Close) {
        return Err(SyntaxError { at: at + 2, expected: Expected::Close });
    }
    Ok((Shape::Event { code }, at + 3))
}

/// Reads what the tokens from `at` on say of a request, after the word
/// `Request`.
fn read_request(tokens: &Vec<Token>, at: usize) -> (res: Result<(Shape, usize), SyntaxError>)
    requires
        at <= tokens@.len(),
    ensures
        match parse_request(tokens@, at as int) {
            Ok((shape, next)) => res == Ok::<(Shape, usize), SyntaxError>((shape, next as usize))
                && next <= tokens@.len(),
            Err(e) => res == Err::<(Shape, usize), SyntaxError>(e),
        },
{
    if !sign_at(tokens, at, Sign::Open) {
        return Err(SyntaxError { at, expected: Expected::Open });
    }
    let major_opcode = match number(tokens, at + 1) {
        Some(major_opcode) => major_opcode,
        None => {
            return Err(SyntaxError { at: at + 1, expected: Expected::Number });
        },
    };
    let (minor_opcode, close) = if sign_at(tokens, at + 2, Sign::Comma) {
        match number(tokens, at + 3) {
            Some(minor_opcode) => (Some(minor_opcode), at + 4),
            None => {
                return Err(SyntaxError { at: at + 3, expected: Expected::Number });
            },
        }
    } else {
        (None, at + 2)
    };
    if !sign_at(tokens, close, Sign::Close) {
        return Err(SyntaxError { at: close, expected: Expected::Close });
    }
    if !sign_at(tokens, close + 1, Sign::Arrow) {
        return Ok((Shape::Request { major_opcode, minor_opcode, reply: None }, close + 1));
    }
    if !name_at(tokens, close + 2) {
        return Err(SyntaxError { at: close + 2, expected: Expected::Name });
    }
    Ok((Shape::Request { major_opcode, minor_opcode, reply: Some(close + 2) }, close + 3))
}

/// Reads what the tokens from `at` on say of a reply, after the word
/// `Reply`.
fn read_reply(tokens: &Vec<Token>, at: usize) -> (res: Result<(Shape, usize), SyntaxError>)
    requires
        at <= tokens@.len(),
    ensures
        match parse_reply(tokens@, at as int) {
            Ok((shape, next)) => res == Ok::<(Shape, usize), SyntaxError>((shape, next as usize))
                && next <= tokens@.len(),
            Err(e) => res == Err::<(Shape, usize), SyntaxError>(e),
        },
{
    let sequence: [u8; 8] = [0x73, 0x65, 0x71, 0x75, 0x65, 0x6e, 0x63, 0x65];
    let word_for: [u8; 3] = [0x66, 0x6f, 0x72];
    assert(sequence@ =~= sequence_word());
    assert(word_for@ =~= for_word());
    let mut question = false;
    let mut next = at;
    if sign_at(tokens, at, Sign::Open) {
        let mut close = at + 1;
        if sign_at(tokens, at + 1, Sign::Question) {
            if !word_at(tokens, at + 2, sequence.as_slice()) {
                return Err(SyntaxError { at: at + 2, expected: Expected::Sequence });
            }
            question = true;
            close = at + 3;
        }
        if !sign_at(tokens, close, Sign::Close) {
            return Err(SyntaxError { at: close, expected: Expected::Close });
        }
        next = close + 1;
    }
    if !word_at(tokens, next, word_for.as_slice()) {
        return Err(SyntaxError { at: next, expected: Expected::For });
    }
    if !name_at(tokens, next + 1) {
        return Err(SyntaxError { at: next + 1, expected: Expected::Name });
    }
    Ok((Shape::Reply { sequence: !question, request: next + 1 }, next + 2))
}

/// Reads what the tokens from `at` on say of the shape of a definition.
/// Gives the shape and the place of the first token after it.
pub fn read_shape(tokens: &Vec<Token>, at: usize) -> (res: Result<(Shape, usize), SyntaxError>)
    requires
        at <= tokens@.len(),
    ensures
        match parse_shape(tokens@, at as int) {
            Ok((shape, next)) => res == Ok::<(Shape, usize), SyntaxError>((shape, next as usize))
                && at <= next <= tokens@.len(),
            Err(e) => res == Err::<(Shape, usize), SyntaxError>(e),
        },
{
    let event: [u8; 5] = [0x45, 0x76, 0x65, 0x6e, 0x74];
    let request: [u8; 7] = [0x52, 0x65, 0x71, 0x75, 0x65, 0x73, 0x74];
    let reply: [u8; 5] = [0x52, 0x65, 0x70, 0x6c, 0x79];
    assert(event@ =~= event_word());
    assert(request@ =~= request_word());
    assert(reply@ =~= reply_word());
    if !sign_at(tokens, at, Sign::Colon) {
        return Ok((Shape::Struct, at));
    }
    if word_at(tokens, at + 1, event.as_slice()) {
        read_event(tokens, at + 2)
    } else if word_at(tokens, at + 1, request.as_slice()) {
        read_request(tokens, at + 2)
    } else if word_at(tokens, at + 1, reply.as_slice()) {
        read_reply(tokens, at + 2)
    } else {
        Err(SyntaxError { at: at + 1, expected: Expected::MessageType })
    }
}

/// The first place from `from` on at which `names` holds `word`, if there is
/// one.
pub open spec fn position(names: Seq<Vec<u8>>, word: Seq<u8>, from: int) -> Option<int>
    decreases names.len() - from,
{
    if from < 0 || from >= names.len() {
        None
    } else if names[from]@ == word {
        Some(from)
    } else {
        position(names, word, from + 1)
    }
}

/// The place among `names` of what the word at `at` names, if the token
/// there is a word and names something.
pub open spec fn named(tokens: Seq<Token>, names: Seq<Vec<u8>>, at: int) -> Option<int> {
    if 0 <= at < tokens.len() {
        match tokens[at] {
            Token::Word(word) => position(names, word@, 0),
            _ => None,
        }
    } else {
        None
    }
}

/// What tells a definition of the shape `shape` apart, where `names` holds
/// the names of the definitions that are defined together, each at the
/// place of its definition. There is none if the shape names a request or
/// a reply that is not among them. An event carries a sequence number.
pub open spec fn metadata_of(shape: Shape, tokens: Seq<Token>, names: Seq<Vec<u8>>) -> Option<
    StructMetadata,
> {
    match shape {
        Shape::Struct => Some(StructMetadata::Struct(BasicStructMetadata {  })),
        Shape::Event { code } => Some(StructMetadata::Event(Event { code, sequence: true })),
        Shape::Request { major_opcode, minor_opcode, reply: None } => Some(
            StructMetadata::Request(Request { major_opcode, minor_opcode, reply: None }),
        ),
        Shape::Request { major_opcode, minor_opcode, reply: Some(at) } => match named(
            tokens,
            names,
            at as int,
        ) {
            Some(place) => Some(
                StructMetadata::Request(
                    Request { major_opcode, minor_opcode, reply: Some(place as usize) },
                ),
            ),
            None => None,
        },
        Shape::Reply { sequence, request } => match named(tokens, names, request as int) {
            Some(place) => Some(
                StructMetadata::Reply(Reply { sequence, request: place as usize }),
            ),
            None => None,
        },
    }
}

/// Computes [`named`].
pub fn find_name(tokens: &Vec<Token>, names: &Vec<Vec<u8>>, at: usize) -> (place: Option<usize>)
    ensures
        match place {
            Some(k) => named(tokens@, names@, at as int) == Some(k as int),
            None => named(tokens@, names@, at as int) is None,
        },
{
    if at >= tokens.len() {
        return None;
    }
    match &tokens[at] {
        Token::Word(word) => {
            let mut k: usize = 0;
            while k < names.len()
                invariant
                    k <= names@.len(),
                    named(tokens@, names@, at as int) == position(names@, word@, 0),
                    position(names@, word@, 0) == position(names@, word@, k as int),
                decreases names@.len() - k,
            {
                if same_bytes(&names[k], word.as_slice()) {
                    return Some(k);
                }
                k = k + 1;
            }
            None
        },
        _ => None,
    }
}

/// Computes [`metadata_of`].
pub fn metadata(shape: Shape, tokens: &Vec<Token>, names: &Vec<Vec<u8>>) -> (found: Option<
    StructMetadata,
>)
    ensures
        found == metadata_of(shape, tokens@, names@),
{
    match shape {
        Shape::Struct => Some(StructMetadata::Struct(BasicStructMetadata {  })),
        Shape::Event { code } => Some(StructMetadata::Event(Event { code, sequence: true })),
        Shape::Request { major_opcode, minor_opcode, reply } => match reply {
            None => Some(
                StructMetadata::Request(Request { major_opcode, minor_opcode, reply: None }),
            ),
            Some(at) => match find_name(tokens, names, at) {
                Some(place) => Some(
                    StructMetadata::Request(
                        Request { major_opcode, minor_opcode, reply: Some(place) },
                    ),
                ),
                None => None,
            },
        },
        Shape::Reply { sequence, request } => match find_name(tokens, names, request) {
            Some(place) => Some(StructMetadata::Reply(Reply { sequence, request: place })),
            None => None,
        },
    }
}

} // verus!
