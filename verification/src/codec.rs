//! Transcoding between what a person types and what goes over the wire.
//!
//! Outbound text is sent either as its UTF-8 bytes or, in hex mode, as the
//! bytes that its tokens spell: the tokens are the runs of characters
//! between whitespace, and each must be pairs of hex digits. Inbound bytes
//! are text when they are UTF-8 and a lowercase hex dump, marked as binary,
//! when they are not, so every payload can be shown.

use crate::text::{chars_of, push_char, string_of};
use vstd::prelude::*;
use vstd::utf8::{encode_utf8, is_ascii_chars, is_ascii_chars_encode_utf8, valid_utf8};

verus! {

/// How an outbound message is turned into bytes.
#[derive(Clone, Copy, Debug, PartialEq, Eq, Structural)]
pub enum EncodingMode {
    Text,
    Hex,
}

/// Why a hex message could not be parsed. Either way `token` is the token
/// that was refused: the first of the message that is not pairs of hex
/// digits.
#[derive(Debug)]
pub enum CodecError {
    /// The token holds only hex digits, but an odd number of them.
    OddLength { token: String },
    /// The token holds a character that is no hex digit.
    InvalidToken { token: String },
}

/// A codec error with its token as a sequence of characters.
pub enum CodecErrorView {
    OddLength { token: Seq<char> },
    InvalidToken { token: Seq<char> },
}

impl View for CodecError {
    type V = CodecErrorView;

    open spec fn view(&self) -> CodecErrorView {
        match self {
            CodecError::OddLength { token } => CodecErrorView::OddLength { token: token@ },
            CodecError::InvalidToken { token } => CodecErrorView::InvalidToken { token: token@ },
        }
    }
}

/// The value of the hex digit with character code `code`, or -1 if the code
/// is not a hex digit.
pub open spec fn hex_value(code: int) -> int {
    if 48 <= code <= 57 {
        code - 48
    } else if 97 <= code <= 102 {
        code - 87
    } else if 65 <= code <= 70 {
        code - 55
    } else {
        -1
    }
}

/// Whether `c` is one of `0`-`9`, `a`-`f`, `A`-`F`.
pub open spec fn is_hex_digit(c: char) -> bool {
    hex_value(c as int) >= 0
}

/// Whether `c` is whitespace, as Unicode defines it: tab, line feed,
/// vertical tab, form feed, carriage return, space, next line, and the
/// spaces and separators beyond ASCII.
pub open spec fn is_whitespace(c: char) -> bool {
    let code = c as int;
    ||| 0x09 <= code <= 0x0d
    ||| code == 0x20
    ||| code == 0x85
    ||| code == 0xa0
    ||| code == 0x1680
    ||| 0x2000 <= code <= 0x200a
    ||| code == 0x2028
    ||| code == 0x2029
    ||| code == 0x202f
    ||| code == 0x205f
    ||| code == 0x3000
}

/// Reading `text` from its start: the tokens that have ended, and the run of
/// characters since the last whitespace, which is a token that has not ended
/// yet, or empty.
pub open spec fn runs(text: Seq<char>) -> (Seq<Seq<char>>, Seq<char>)
    decreases text.len(),
{
    if text.len() == 0 {
        (Seq::empty(), Seq::empty())
    } else {
        let (ended, run) = runs(text.drop_last());
        if !is_whitespace(text.last()) {
            (ended, run.push(text.last()))
        } else if run.len() > 0 {
            (ended.push(run), Seq::empty())
        } else {
            (ended, Seq::empty())
        }
    }
}

/// The tokens of `text`: its maximal runs of characters that are not
/// whitespace, in order.
pub open spec fn tokens_of(text: Seq<char>) -> Seq<Seq<char>> {
    let (ended, run) = runs(text);
    if run.len() > 0 {
        ended.push(run)
    } else {
        ended
    }
}

/// Whether every character of `token` is a hex digit.
pub open spec fn all_hex(token: Seq<char>) -> bool {
    forall|i: int| 0 <= i < token.len() ==> is_hex_digit(#[trigger] token[i])
}

/// Whether `token` is pairs of hex digits: an even number of characters,
/// each a hex digit.
pub open spec fn token_ok(token: Seq<char>) -> bool {
    token.len() % 2 == 0 && all_hex(token)
}

/// The byte that the `k`-th pair of `token` spells, the first digit being
/// the high half.
pub open spec fn pair_byte(token: Seq<char>, k: int) -> u8 {
    (16 * hex_value(token[2 * k] as int) + hex_value(token[2 * k + 1] as int)) as u8
}

/// The bytes that the pairs of `token` spell, in order.
pub open spec fn hex_bytes(token: Seq<char>) -> Seq<u8> {
    Seq::new(token.len() / 2, |k: int| pair_byte(token, k))
}

/// The bytes that `tokens` spell: those of the first token, then those of
/// the second, and so on.
pub open spec fn token_bytes(tokens: Seq<Seq<char>>) -> Seq<u8>
    decreases tokens.len(),
{
    if tokens.len() == 0 {
        Seq::empty()
    } else {
        token_bytes(tokens.drop_last()) + hex_bytes(tokens.last())
    }
}

/// Whether every one of `tokens` is pairs of hex digits.
pub open spec fn all_ok(tokens: Seq<Seq<char>>) -> bool {
    forall|k: int| 0 <= k < tokens.len() ==> token_ok(#[trigger] tokens[k])
}

/// Whether token `k` is the first of `tokens` that is not pairs of hex
/// digits.
pub open spec fn is_first_bad_token(tokens: Seq<Seq<char>>, k: int) -> bool {
    &&& 0 <= k < tokens.len()
    &&& !token_ok(tokens[k])
    &&& forall|j: int| 0 <= j < k ==> token_ok(#[trigger] tokens[j])
}

/// The error with which a token that is not pairs of hex digits is refused:
/// it names the token, and tells a character that is no hex digit from an
/// odd number of hex digits.
pub open spec fn fault_of(token: Seq<char>) -> CodecErrorView {
    if all_hex(token) {
        CodecErrorView::OddLength { token }
    } else {
        CodecErrorView::InvalidToken { token }
    }
}

/// What parsing `text` as hex gives: the bytes that its tokens spell when
/// every token is pairs of hex digits, else the error for the first token
/// that is not.
pub open spec fn parses_to(text: Seq<char>, r: Result<Vec<u8>, CodecError>) -> bool {
    let tokens = tokens_of(text);
    match r {
        Ok(bytes) => all_ok(tokens) && bytes@ == token_bytes(tokens),
        Err(error) => exists|k: int| #[trigger]
            is_first_bad_token(tokens, k) && error@ == fault_of(tokens[k]),
    }
}

/// The first of `tokens` that is not pairs of hex digits, where there is
/// one.
pub open spec fn first_bad_token(tokens: Seq<Seq<char>>) -> int {
    choose|k: int| is_first_bad_token(tokens, k)
}

/// The bytes that `message` stands for in `mode`, if it stands for any: in
/// text mode its UTF-8 bytes, in hex mode the bytes that its tokens spell.
pub open spec fn outbound(message: Seq<char>, mode: EncodingMode) -> Option<Seq<u8>> {
    match mode {
        EncodingMode::Text => Some(encode_utf8(message)),
        EncodingMode::Hex => if all_ok(tokens_of(message)) {
            Some(token_bytes(tokens_of(message)))
        } else {
            None
        },
    }
}

/// The error with which hex text that spells no bytes is refused: that of
/// its first token that is not pairs of hex digits.
pub open spec fn hex_refusal(text: Seq<char>) -> CodecErrorView {
    let tokens = tokens_of(text);
    fault_of(tokens[first_bad_token(tokens)])
}

/// Hex text has one parse: `r` is that parse exactly when it carries the
/// bytes of `outbound`, or, where there are none, the error of
/// `hex_refusal`.
pub proof fn lemma_parse_is_determined(text: Seq<char>, r: Result<Vec<u8>, CodecError>)
    requires
        parses_to(text, r),
    ensures
        match r {
            Ok(bytes) => outbound(text, EncodingMode::Hex) == Some(bytes@),
            Err(error) => outbound(text, EncodingMode::Hex) is None && error@ == hex_refusal(text),
        },
{
    let tokens = tokens_of(text);
    match r {
        Ok(bytes) => {},
        Err(error) => {
            let k = choose|k: int| #[trigger]
                is_first_bad_token(tokens, k) && error@ == fault_of(tokens[k]);
            let first = first_bad_token(tokens);
            assert(is_first_bad_token(tokens, first));
            assert(first == k) by {
                if first < k {
                    assert(token_ok(tokens[first]));
                }
                if k < first {
                    assert(token_ok(tokens[k]));
                }
            }
        },
    }
}

/// Every token holds a character, and none of them is whitespace.
pub proof fn lemma_tokens_are_runs(text: Seq<char>)
    ensures
        forall|k: int|
            0 <= k < tokens_of(text).len() ==> (#[trigger] tokens_of(text)[k]).len() > 0,
        forall|k: int, i: int|
            0 <= k < tokens_of(text).len() && 0 <= i < tokens_of(text)[k].len() ==> !is_whitespace(
                #[trigger] tokens_of(text)[k][i],
            ),
{
    lemma_runs_are_runs(text);
}

proof fn lemma_runs_are_runs(text: Seq<char>)
    ensures
        forall|k: int| 0 <= k < runs(text).0.len() ==> (#[trigger] runs(text).0[k]).len() > 0,
        forall|k: int, i: int|
            0 <= k < runs(text).0.len() && 0 <= i < runs(text).0[k].len() ==> !is_whitespace(
                #[trigger] runs(text).0[k][i],
            ),
        forall|i: int| 0 <= i < runs(text).1.len() ==> !is_whitespace(#[trigger] runs(text).1[i]),
    decreases text.len(),
{
    if text.len() > 0 {
        lemma_runs_are_runs(text.drop_last());
        let (ended, run) = runs(text.drop_last());
        let now = runs(text);
        if !is_whitespace(text.last()) {
            assert(now.0 == ended);
            assert(now.1 == run.push(text.last()));
        } else if run.len() > 0 {
            assert(now.0 == ended.push(run));
            assert forall|k: int| 0 <= k < now.0.len() implies (#[trigger] now.0[k]).len() > 0 by {
                if k < ended.len() {
                    assert(now.0[k] == ended[k]);
                }
            }
            assert forall|k: int, i: int|
                0 <= k < now.0.len() && 0 <= i < now.0[k].len() implies !is_whitespace(
                #[trigger] now.0[k][i],
            ) by {
                if k < ended.len() {
                    assert(now.0[k] == ended[k]);
                } else {
                    assert(now.0[k] == run);
                }
            }
        } else {
            assert(now.0 == ended);
        }
    }
}

/// Why the `hex` crate refused to decode digits: the crate's own three
/// reasons, with the same fields.
#[derive(Clone, Copy, Debug, PartialEq, Eq, Structural)]
pub enum HexFault {
    /// The byte at `index`, read as the character `c`, is no hex digit.
    InvalidHexCharacter { c: char, index: usize },
    /// The input has an odd number of bytes.
    OddLength,
    /// The input does not fit a container of fixed size.
    InvalidStringLength,
}

/// Whether the byte `b` is the code of a hex digit.
pub open spec fn is_hex_byte(b: u8) -> bool {
    hex_value(b as int) >= 0
}

/// The bytes that the pairs of digit codes in `data` spell, in order.
pub open spec fn packed(data: Seq<u8>) -> Seq<u8> {
    Seq::new(
        data.len() / 2,
        |k: int| (16 * hex_value(data[2 * k] as int) + hex_value(data[2 * k + 1] as int)) as u8,
    )
}

/// Whether `index` is the first position of `data` that holds no hex digit.
pub open spec fn is_first_bad_byte(data: Seq<u8>, index: int) -> bool {
    &&& 0 <= index < data.len()
    &&& !is_hex_byte(data[index])
    &&& forall|j: int| 0 <= j < index ==> is_hex_byte(data[j])
}

/// What decoding the digit codes `data` gives: the packed bytes when the
/// length is even and every byte is a hex digit; the odd length when it is
/// odd; else the first byte that is no hex digit, with its position.
pub open spec fn hex_decodes_to(data: Seq<u8>, r: Result<Vec<u8>, HexFault>) -> bool {
    match r {
        Ok(bytes) => {
            &&& data.len() % 2 == 0
            &&& forall|i: int| 0 <= i < data.len() ==> is_hex_byte(data[i])
            &&& bytes@ == packed(data)
        },
        Err(HexFault::OddLength) => data.len() % 2 == 1,
        Err(HexFault::InvalidHexCharacter { c, index }) => {
            &&& data.len() % 2 == 0
            &&& is_first_bad_byte(data, index as int)
            &&& c == data[index as int] as char
        },
        Err(HexFault::InvalidStringLength) => false,
    }
}

/// Decodes hex digits with `hex::decode`.
///
/// Trusted to behave as the crate's source reads: an odd length is refused
/// before any digit is looked at; otherwise the bytes are read in order, two
/// to an output byte, the first being the high half, and the first byte that
/// is no hex digit is reported as a character with its position. The third
/// reason the crate knows is used only for containers of fixed size.
#[verifier::external_body]
fn hex_decode(data: &Vec<u8>) -> (r: Result<Vec<u8>, HexFault>)
    ensures
        hex_decodes_to(data@, r),
{
    match hex::decode(data) {
        Ok(bytes) => Ok(bytes),
        Err(hex::FromHexError::InvalidHexCharacter { c, index }) => Err(
            HexFault::InvalidHexCharacter { c, index },
        ),
        Err(hex::FromHexError::OddLength) => Err(HexFault::OddLength),
        Err(hex::FromHexError::InvalidStringLength) => Err(HexFault::InvalidStringLength),
    }
}

fn hex_value_of(c: char) -> (v: Option<u8>)
    ensures
        match v {
            Some(d) => d < 16 && d == hex_value(c as int),
            None => !is_hex_digit(c),
        },
{
    let code: u32 = c as u32;
    if 48 <= code && code <= 57 {
        Some((code - 48) as u8)
    } else if 97 <= code && code <= 102 {
        Some((code - 87) as u8)
    } else if 65 <= code && code <= 70 {
        Some((code - 55) as u8)
    } else {
        None
    }
}

fn is_whitespace_char(c: char) -> (b: bool)
    ensures
        b == is_whitespace(c),
{
    let code: u32 = c as u32;
    (0x09 <= code && code <= 0x0d) || code == 0x20 || code == 0x85 || code == 0xa0 || code
        == 0x1680 || (0x2000 <= code && code <= 0x200a) || code == 0x2028 || code == 0x2029
        || code == 0x202f || code == 0x205f || code == 0x3000
}

spec fn views(tokens: Seq<Vec<char>>) -> Seq<Seq<char>> {
    Seq::new(tokens.len(), |k: int| tokens[k]@)
}

fn split_tokens(text: &Vec<char>) -> (tokens: Vec<Vec<char>>)
    ensures
        views(tokens@) == tokens_of(text@),
{
    let mut ended: Vec<Vec<char>> = Vec::new();
    let mut run: Vec<char> = Vec::new();
    let mut i: usize = 0;
    proof {
        assert(text@.take(0) =~= Seq::<char>::empty());
        assert(views(ended@) =~= Seq::<Seq<char>>::empty());
    }
    while i < text.len()
        invariant
            i <= text.len(),
            (views(ended@), run@) == runs(text@.take(i as int)),
        decreases text.len() - i,
    {
        let c = text[i];
        let ghost before = views(ended@);
        proof {
            assert(text@.take(i + 1).drop_last() =~= text@.take(i as int));
            assert(text@.take(i + 1).last() == c);
        }
        if !is_whitespace_char(c) {
            run.push(c);
        } else if run.len() > 0 {
            let ghost closed = run@;
            ended.push(run);
            run = Vec::new();
            assert(views(ended@) =~= before.push(closed));
        }
        i += 1;
    }
    assert(text@.take(text.len() as int) =~= text@);
    if run.len() > 0 {
        let ghost before = views(ended@);
        let ghost closed = run@;
        ended.push(run);
        assert(views(ended@) =~= before.push(closed));
    }
    ended
}

/// The bytes that a token spells, or the error that refuses it.
///
/// The token is looked at here, so that a refusal can name it; the digits of
/// a token that is pairs of hex digits are decoded by the `hex` crate.
fn decode_token(token: &Vec<char>) -> (r: Result<Vec<u8>, CodecError>)
    ensures
        match r {
            Ok(bytes) => token_ok(token@) && bytes@ == hex_bytes(token@),
            Err(error) => !token_ok(token@) && error@ == fault_of(token@),
        },
{
    let mut i: usize = 0;
    while i < token.len()
        invariant
            i <= token.len(),
            forall|j: int| 0 <= j < i ==> is_hex_digit(#[trigger] token@[j]),
        decreases token.len() - i,
    {
        if hex_value_of(token[i]).is_none() {
            assert(!is_hex_digit(token@[i as int]));
            return Err(CodecError::InvalidToken { token: string_of(token) });
        }
        i += 1;
    }
    if token.len() % 2 != 0 {
        return Err(CodecError::OddLength { token: string_of(token) });
    }
    let digits = string_of(token);
    let data = digits.as_str().as_bytes_vec();
    proof {
        assert(is_ascii_chars(token@)) by {
            assert forall|j: int| 0 <= j < token@.len() implies '\0' <= #[trigger] token@[j]
                <= '\u{7f}' by {
                let c = token@[j];
                assert(is_hex_digit(c));
            }
        }
        is_ascii_chars_encode_utf8(token@);
        assert forall|j: int| 0 <= j < data@.len() implies is_hex_byte(#[trigger] data@[j]) by {
            assert(is_hex_digit(token@[j]));
            assert(data@[j] == token@[j] as u8);
        }
    }
    match hex_decode(&data) {
        Ok(bytes) => {
            proof {
                assert forall|k: int| 0 <= k < bytes@.len() implies bytes@[k] == hex_bytes(
                    token@,
                )[k] by {
                    assert(data@[2 * k] == token@[2 * k] as u8);
                    assert(data@[2 * k + 1] == token@[2 * k + 1] as u8);
                }
                assert(bytes@ =~= hex_bytes(token@));
            }
            Ok(bytes)
        },
        Err(_) => vstd::pervasive::unreached(),
    }
}

fn parse_tokens(hex_str: &str) -> (r: Result<Vec<u8>, CodecError>)
    ensures
        parses_to(hex_str@, r),
{
    let text = chars_of(hex_str);
    let tokens = split_tokens(&text);
    let mut bytes: Vec<u8> = Vec::new();
    let mut k: usize = 0;
    assert(views(tokens@).take(0) =~= Seq::<Seq<char>>::empty());
    while k < tokens.len()
        invariant
            views(tokens@) == tokens_of(hex_str@),
            k <= tokens.len(),
            forall|j: int| 0 <= j < k ==> token_ok(#[trigger] views(tokens@)[j]),
            bytes@ == token_bytes(views(tokens@).take(k as int)),
        decreases tokens.len() - k,
    {
        assert(views(tokens@)[k as int] == tokens@[k as int]@);
        match decode_token(&tokens[k]) {
            Ok(more) => {
                let mut more = more;
                proof {
                    let upto = views(tokens@).take(k + 1);
                    assert(upto.drop_last() =~= views(tokens@).take(k as int));
                    assert(upto.last() == tokens@[k as int]@);
                }
                bytes.append(&mut more);
            },
            Err(error) => {
                assert(is_first_bad_token(views(tokens@), k as int));
                return Err(error);
            },
        }
        k += 1;
    }
    assert(views(tokens@).take(tokens.len() as int) =~= views(tokens@));
    Ok(bytes)
}

/// Parses hex text into the bytes it spells.
///
/// The text is read as tokens, the runs of characters between whitespace.
/// Every token must be pairs of hex digits, upper or lower case; the bytes
/// are those of the pairs, token by token. Otherwise the first token that is
/// not pairs of hex digits is refused and named, and no bytes are given.
pub fn parse_hex_string(hex_str: &str) -> (r: Result<Vec<u8>, CodecError>)
    ensures
        parses_to(hex_str@, r),
        match r {
            Ok(bytes) => outbound(hex_str@, EncodingMode::Hex) == Some(bytes@),
            Err(error) => outbound(hex_str@, EncodingMode::Hex) is None && error@ == hex_refusal(
                hex_str@,
            ),
        },
{
    let r = parse_tokens(hex_str);
    proof {
        lemma_parse_is_determined(hex_str@, r);
    }
    r
}

/// The lowercase hex digit of `d`.
pub open spec fn hex_char(d: int) -> char {
    if d == 10 {
        'a'
    } else if d == 11 {
        'b'
    } else if d == 12 {
        'c'
    } else if d == 13 {
        'd'
    } else if d == 14 {
        'e'
    } else if d == 15 {
        'f'
    } else {
        crate::text::digit_char(d)
    }
}

/// The two lowercase hex digits of `b`.
pub open spec fn byte_hex(b: u8) -> Seq<char> {
    seq![hex_char(b as int / 16), hex_char(b as int % 16)]
}

/// The hex dump of `bytes`: two lowercase digits a byte, one space between
/// neighbours.
pub open spec fn hex_dump(bytes: Seq<u8>) -> Seq<char>
    decreases bytes.len(),
{
    if bytes.len() == 0 {
        Seq::empty()
    } else if bytes.len() == 1 {
        byte_hex(bytes[0])
    } else {
        hex_dump(bytes.drop_last()) + seq![' '] + byte_hex(bytes.last())
    }
}

fn hex_char_of(d: u8) -> (c: char)
    requires
        d < 16,
    ensures
        c == hex_char(d as int),
{
    if d == 0 {
        '0'
    } else if d == 1 {
        '1'
    } else if d == 2 {
        '2'
    } else if d == 3 {
        '3'
    } else if d == 4 {
        '4'
    } else if d == 5 {
        '5'
    } else if d == 6 {
        '6'
    } else if d == 7 {
        '7'
    } else if d == 8 {
        '8'
    } else if d == 9 {
        '9'
    } else if d == 10 {
        'a'
    } else if d == 11 {
        'b'
    } else if d == 12 {
        'c'
    } else if d == 13 {
        'd'
    } else if d == 14 {
        'e'
    } else {
        'f'
    }
}

/// Writes `bytes` as a hex dump.
pub fn to_hex_dump(bytes: &[u8]) -> (dump: String)
    ensures
        dump@ == hex_dump(bytes@),
{
    let mut dump = String::new();
    let mut i: usize = 0;
    assert(bytes@.take(0) =~= Seq::<u8>::empty());
    while i < bytes.len()
        invariant
            i <= bytes.len(),
            dump@ == hex_dump(bytes@.take(i as int)),
        decreases bytes.len() - i,
    {
        let b = bytes[i];
        if i > 0 {
            push_char(&mut dump, ' ');
        }
        push_char(&mut dump, hex_char_of(b / 16));
        push_char(&mut dump, hex_char_of(b % 16));
        proof {
            let upto = bytes@.take(i + 1);
            assert(upto.drop_last() =~= bytes@.take(i as int));
            assert(upto.last() == b);
            assert(dump@ =~= hex_dump(upto));
        }
        i += 1;
    }
    assert(bytes@.take(bytes.len() as int) =~= bytes@);
    dump
}

/// An inbound payload, ready to show.
#[derive(Debug)]
pub enum Payload {
    /// The bytes were UTF-8; this is their text.
    Text(String),
    /// The bytes were not UTF-8; this is their hex dump.
    Binary(String),
}

/// Reads `bytes` as UTF-8 text with `String::from_utf8`.
///
/// Trusted to do what the standard library documents: succeed exactly on
/// valid UTF-8, and then give the string whose UTF-8 bytes are the input.
#[verifier::external_body]
fn utf8_text(bytes: &[u8]) -> (text: Option<String>)
    ensures
        text is Some <==> valid_utf8(bytes@),
        text matches Some(t) ==> encode_utf8(t@) == bytes@,
{
    String::from_utf8(bytes.to_vec()).ok()
}

/// Decodes an inbound payload. UTF-8 becomes text; anything else becomes a
/// hex dump marked as binary. Every payload decodes.
pub fn decode(bytes: &[u8]) -> (payload: Payload)
    ensures
        match payload {
            Payload::Text(text) => valid_utf8(bytes@) && encode_utf8(text@) == bytes@,
            Payload::Binary(dump) => !valid_utf8(bytes@) && dump@ == hex_dump(bytes@),
        },
{
    match utf8_text(bytes) {
        Some(text) => Payload::Text(text),
        None => Payload::Binary(to_hex_dump(bytes)),
    }
}

impl Payload {
    /// Whether the payload was not UTF-8.
    pub fn is_binary(&self) -> (b: bool)
        ensures
            b == (*self is Binary),
    {
        match self {
            Payload::Text(_) => false,
            Payload::Binary(_) => true,
        }
    }
}

/// The mode that a message type names: `hex` names hex, everything else and
/// no name at all mean text.
pub open spec fn mode_named(message_type: Option<String>) -> EncodingMode {
    match message_type {
        Some(name) => if name@ == "hex"@ {
            EncodingMode::Hex
        } else {
            EncodingMode::Text
        },
        None => EncodingMode::Text,
    }
}

impl EncodingMode {
    /// The mode that `message_type` names.
    pub fn named(message_type: &Option<String>) -> (mode: EncodingMode)
        ensures
            mode == mode_named(*message_type),
    {
        match message_type {
            Some(name) => {
                let hex = String::from_str("hex");
                if *name == hex {
                    EncodingMode::Hex
                } else {
                    EncodingMode::Text
                }
            },
            None => EncodingMode::Text,
        }
    }
}

/// Encodes an outbound message: in text mode its UTF-8 bytes, in hex mode
/// the bytes that its tokens spell.
pub fn encode(message: &str, mode: EncodingMode) -> (r: Result<Vec<u8>, CodecError>)
    ensures
        match r {
            Ok(bytes) => outbound(message@, mode) == Some(bytes@),
            Err(error) => {
                &&& mode == EncodingMode::Hex
                &&& outbound(message@, mode) is None
                &&& error@ == hex_refusal(message@)
            },
        },
{
    match mode {
        EncodingMode::Text => Ok(message.as_bytes_vec()),
        EncodingMode::Hex => parse_hex_string(message),
    }
}

} // verus!
