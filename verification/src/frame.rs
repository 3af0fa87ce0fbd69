//! The frame codec: raw frames in, typed events out, and the split of a text
//! line into its verb and its argument.

use crate::text::chars_of;
use vstd::prelude::*;
use vstd::string::StrSliceExecFns;
use vstd::string::StringExecFns;
use vstd::utf8::decode_utf8;
use vstd::utf8::encode_utf8;
use vstd::utf8::encode_utf8_decode_utf8;
use vstd::utf8::encode_utf8_valid_utf8;
use vstd::utf8::valid_utf8;

verus! {

/// The two kinds of data frame that the transport delivers.
#[derive(Clone, Copy, Debug, PartialEq, Eq, Structural)]
pub enum FrameKind {
    Text,
    Binary,
}

/// One frame as the transport hands it over: its kind and its payload bytes.
#[derive(Clone, Debug, PartialEq, Eq)]
pub struct RawFrame {
    pub kind: FrameKind,
    pub payload: Vec<u8>,
}

/// What the session reacts to.
#[derive(Clone, Debug, PartialEq, Eq)]
pub enum ChatEvent {
    TextMessage { raw: String },
    BinaryMessage { bytes: Vec<u8> },
    ConnectionOpened,
    ConnectionClosed { reason: String },
    ConnectionError { detail: String },
}

/// The mathematical content of a [`ChatEvent`].
pub enum ChatEventView {
    TextMessage { raw: Seq<char> },
    BinaryMessage { bytes: Seq<u8> },
    ConnectionOpened,
    ConnectionClosed { reason: Seq<char> },
    ConnectionError { detail: Seq<char> },
}

impl View for ChatEvent {
    type V = ChatEventView;

    open spec fn view(&self) -> ChatEventView {
        match self {
            ChatEvent::TextMessage { raw } => ChatEventView::TextMessage { raw: raw@ },
            ChatEvent::BinaryMessage { bytes } => ChatEventView::BinaryMessage { bytes: bytes@ },
            ChatEvent::ConnectionOpened => ChatEventView::ConnectionOpened,
            ChatEvent::ConnectionClosed { reason } => ChatEventView::ConnectionClosed {
                reason: reason@,
            },
            ChatEvent::ConnectionError { detail } => ChatEventView::ConnectionError {
                detail: detail@,
            },
        }
    }
}

/// A text line split into its leading verb and the rest of the line.
#[derive(Clone, Debug, PartialEq, Eq)]
pub struct ChatCommandFrame {
    pub verb: String,
    pub argument: String,
}

/// The mathematical content of a [`ChatCommandFrame`].
pub struct ChatCommandFrameView {
    pub verb: Seq<char>,
    pub argument: Seq<char>,
}

impl View for ChatCommandFrame {
    type V = ChatCommandFrameView;

    open spec fn view(&self) -> ChatCommandFrameView {
        ChatCommandFrameView { verb: self.verb@, argument: self.argument@ }
    }
}

/// The detail reported for a text frame whose payload is not UTF-8.
pub open spec fn malformed_text_detail() -> Seq<char> {
    "text frame is not valid UTF-8"@
}

/// The event that a frame of the given kind and payload stands for.
pub open spec fn decoded(kind: FrameKind, payload: Seq<u8>) -> ChatEventView {
    match kind {
        FrameKind::Binary => ChatEventView::BinaryMessage { bytes: payload },
        FrameKind::Text => if valid_utf8(payload) {
            ChatEventView::TextMessage { raw: decode_utf8(payload) }
        } else {
            ChatEventView::ConnectionError { detail: malformed_text_detail() }
        },
    }
}

/// The position of the first space in `s`, or the length of `s` if it has none.
pub open spec fn first_space(s: Seq<char>) -> int
    decreases s.len(),
{
    if s.len() == 0 || s[0] == ' ' {
        0
    } else {
        1 + first_space(s.drop_first())
    }
}

/// Whether `s` holds a space.
pub open spec fn has_space(s: Seq<char>) -> bool {
    first_space(s) < s.len()
}

/// The verb of a line: everything before its first space.
pub open spec fn verb_of(s: Seq<char>) -> Seq<char> {
    s.take(first_space(s))
}

/// The argument of a line: everything after its first space, untouched.
pub open spec fn argument_of(s: Seq<char>) -> Seq<char> {
    if has_space(s) {
        s.skip(first_space(s) + 1)
    } else {
        Seq::empty()
    }
}

/// The two pieces that splitting at the first space gives: the verb and the
/// argument. A line without a space is all verb, and its argument is empty.
pub open spec fn split_parts(s: Seq<char>) -> Seq<Seq<char>> {
    seq![verb_of(s), argument_of(s)]
}

/// `first_space` is in range, no space stands before it, and a space stands
/// at it unless the line has none.
pub proof fn lemma_first_space(s: Seq<char>)
    ensures
        0 <= first_space(s) <= s.len(),
        forall|k: int| 0 <= k < first_space(s) ==> s[k] != ' ',
        has_space(s) ==> s[first_space(s)] == ' ',
    decreases s.len(),
{
    if s.len() > 0 && s[0] != ' ' {
        let t = s.drop_first();
        lemma_first_space(t);
        assert forall|k: int| 0 <= k < first_space(s) implies s[k] != ' ' by {
            if k > 0 {
                assert(s[k] == t[k - 1]);
            }
        }
    }
}

/// A position with no space before it, and a space at it unless it is the
/// end of the line, is the first space.
pub proof fn lemma_first_space_is(s: Seq<char>, i: int)
    requires
        0 <= i <= s.len(),
        forall|k: int| 0 <= k < i ==> s[k] != ' ',
        i < s.len() ==> s[i] == ' ',
    ensures
        first_space(s) == i,
    decreases s.len(),
{
    if s.len() > 0 && s[0] != ' ' {
        let t = s.drop_first();
        assert forall|k: int| 0 <= k < i - 1 implies t[k] != ' ' by {
            assert(t[k] == s[k + 1]);
        }
        lemma_first_space_is(t, i - 1);
    }
}

/// Splitting `verb`, one space and `rest` gives `verb` and `rest` back,
/// whatever spaces `rest` holds.
pub proof fn lemma_split_joined(verb: Seq<char>, rest: Seq<char>)
    requires
        forall|k: int| 0 <= k < verb.len() ==> verb[k] != ' ',
    ensures
        verb_of(verb + seq![' '] + rest) == verb,
        argument_of(verb + seq![' '] + rest) == rest,
        split_parts(verb + seq![' '] + rest) == seq![verb, rest],
{
    let line = verb + seq![' '] + rest;
    lemma_first_space_is(line, verb.len() as int);
    assert(line.take(verb.len() as int) =~= verb);
    assert(line.skip(verb.len() as int + 1) =~= rest);
}

/// Splitting loses nothing: verb, the separating space and argument make up
/// the line again, and a line without a space is its own verb.
pub proof fn lemma_split_lossless(s: Seq<char>)
    ensures
        has_space(s) ==> verb_of(s) + seq![' '] + argument_of(s) == s,
        !has_space(s) ==> verb_of(s) == s && argument_of(s) == Seq::<char>::empty(),
{
    lemma_first_space(s);
}

/// A verb holds no space, so splitting it again changes nothing.
pub proof fn lemma_split_idempotent(s: Seq<char>)
    ensures
        !has_space(verb_of(s)),
        verb_of(verb_of(s)) == verb_of(s),
        argument_of(verb_of(s)) == Seq::<char>::empty(),
{
    lemma_first_space(s);
    let v = verb_of(s);
    lemma_first_space_is(v, v.len() as int);
}

/// The index of the first space among `chars`.
fn find_space(chars: &Vec<char>) -> (i: usize)
    ensures
        i == first_space(chars@),
        i <= chars.len(),
{
    let mut i: usize = 0;
    while i < chars.len() && chars[i] != ' '
        invariant
            i <= chars.len(),
            forall|k: int| 0 <= k < i ==> chars@[k] != ' ',
        decreases chars.len() - i,
    {
        i += 1;
    }
    proof {
        lemma_first_space_is(chars@, i as int);
    }
    i
}

/// Splits a line at its first space into two pieces: the verb, and the
/// argument, which is empty where the line has no space.
pub fn split_once<'a>(in_string: &'a str) -> (parts: Vec<&'a str>)
    ensures
        parts@.len() == 2,
        parts@[0]@ == verb_of(in_string@),
        parts@[1]@ == argument_of(in_string@),
        forall|i: int| 0 <= i < 2 ==> parts@[i]@ == split_parts(in_string@)[i],
{
    let chars = chars_of(in_string);
    let n = chars.len();
    let i = find_space(&chars);
    let mut parts: Vec<&'a str> = Vec::new();
    if i < n {
        parts.push(in_string.substring_char(0, i));
        parts.push(in_string.substring_char(i + 1, n));
    } else {
        proof {
            reveal_strlit("");
        }
        parts.push(in_string);
        parts.push("");
    }
    parts
}

/// Splits a line into its verb and its argument.
pub fn split_verb_and_argument(text: &str) -> (frame: ChatCommandFrame)
    ensures
        frame@.verb == verb_of(text@),
        frame@.argument == argument_of(text@),
{
    let chars = chars_of(text);
    let n = chars.len();
    let i = find_space(&chars);
    if i < n {
        let verb = String::from_str(text.substring_char(0, i));
        let argument = String::from_str(text.substring_char(i + 1, n));
        ChatCommandFrame { verb, argument }
    } else {
        let verb = String::from_str(text);
        let argument = String::new();
        ChatCommandFrame { verb, argument }
    }
}

/// `String::from_utf8`: the conversion succeeds exactly on well-formed UTF-8,
/// and the text it gives is the one that the bytes encode.
#[verifier::external_body]
fn text_from_utf8(bytes: Vec<u8>) -> (r: Option<String>)
    ensures
        r is Some <==> valid_utf8(bytes@),
        r is Some ==> r->Some_0@ == decode_utf8(bytes@),
{
    match String::from_utf8(bytes) {
        Ok(text) => Some(text),
        Err(_) => None,
    }
}

/// Turns a raw frame into the event it stands for. A text frame whose
/// payload is not UTF-8 is a transport fault, reported as a connection error.
pub fn decode(frame: RawFrame) -> (event: ChatEvent)
    ensures
        event@ == decoded(frame.kind, frame.payload@),
{
    match frame.kind {
        FrameKind::Binary => ChatEvent::BinaryMessage { bytes: frame.payload },
        FrameKind::Text => match text_from_utf8(frame.payload) {
            Some(raw) => ChatEvent::TextMessage { raw },
            None => ChatEvent::ConnectionError {
                detail: String::from_str("text frame is not valid UTF-8"),
            },
        },
    }
}

/// Wraps a reply into an outbound text frame: its UTF-8 bytes, nothing added.
pub fn encode(reply_text: &str) -> (frame: RawFrame)
    ensures
        frame.kind == FrameKind::Text,
        frame.payload@ == encode_utf8(reply_text@),
{
    RawFrame { kind: FrameKind::Text, payload: reply_text.as_bytes_vec() }
}

/// What `encode` wraps, `decode` gives back as a text message.
pub proof fn lemma_decode_encode(text: Seq<char>)
    ensures
        decoded(FrameKind::Text, encode_utf8(text)) == (ChatEventView::TextMessage { raw: text }),
{
    encode_utf8_valid_utf8(text);
    encode_utf8_decode_utf8(text);
}

} // verus!
