//! The command recognizer: which frames carry a chat message, and which chat
//! messages ask for a lookup.

use crate::frame::ChatCommandFrame;
use crate::frame::ChatCommandFrameView;
use crate::payload::outcome_view;
use crate::payload::parse_payload;
use crate::payload::payload_of;
use crate::payload::Msg;
use crate::payload::MsgView;
use crate::payload::PayloadError;
use crate::text::chars_of;
use crate::text::is_whitespace;
use crate::text::lemma_trim_start;
use crate::text::lemma_trimmed;
use crate::text::trim_end;
use crate::text::trim_start;
use crate::text::same_text;
use crate::text::starts_with;
use crate::text::trim_bounds;
use crate::text::trimmed;
use vstd::prelude::*;
use vstd::string::StrSliceExecFns;
use vstd::string::StringExecFns;

verus! {

/// The verbs of the protocol.
#[derive(Clone, Copy, Debug, PartialEq, Eq, Structural)]
pub enum Verb {
    Msg,
    Join,
    Quit,
    Other,
}

/// What to do with a frame.
#[derive(Clone, Debug, PartialEq, Eq)]
pub enum RoutedAction {
    /// A chat message with a well-formed payload.
    HandleChatMessage(Msg),
    /// A frame that the bot does not act on.
    Ignore,
    /// A chat message whose argument is no payload.
    MalformedMessage(PayloadError),
}

/// The mathematical content of a [`RoutedAction`].
pub enum RoutedActionView {
    HandleChatMessage(MsgView),
    Ignore,
    MalformedMessage(PayloadError),
}

impl View for RoutedAction {
    type V = RoutedActionView;

    open spec fn view(&self) -> RoutedActionView {
        match self {
            RoutedAction::HandleChatMessage(msg) => RoutedActionView::HandleChatMessage(msg@),
            RoutedAction::Ignore => RoutedActionView::Ignore,
            RoutedAction::MalformedMessage(e) => RoutedActionView::MalformedMessage(*e),
        }
    }
}

/// The free text of a lookup: never empty, no whitespace at either end.
#[derive(Clone, Debug, PartialEq, Eq)]
pub struct SearchQuery {
    pub text: String,
}

impl SearchQuery {
    /// A query holds text, and none of it is padding.
    pub open spec fn well_formed(&self) -> bool {
        &&& self.text@.len() > 0
        &&& !is_whitespace(self.text@[0])
        &&& !is_whitespace(self.text@.last())
    }
}

impl View for SearchQuery {
    type V = Seq<char>;

    open spec fn view(&self) -> Seq<char> {
        self.text@
    }
}

/// The verb that a leading token names. Verbs are matched exactly.
pub open spec fn verb_kind(token: Seq<char>) -> Verb {
    if token == "MSG"@ {
        Verb::Msg
    } else if token == "JOIN"@ {
        Verb::Join
    } else if token == "QUIT"@ {
        Verb::Quit
    } else {
        Verb::Other
    }
}

/// What a parse result of a chat message's argument leads to.
pub open spec fn routed_payload(outcome: Result<MsgView, PayloadError>) -> RoutedActionView {
    match outcome {
        Ok(msg) => RoutedActionView::HandleChatMessage(msg),
        Err(e) => RoutedActionView::MalformedMessage(e),
    }
}

/// What a frame leads to: only `MSG` frames are acted on.
pub open spec fn routed(frame: ChatCommandFrameView) -> RoutedActionView {
    if verb_kind(frame.verb) == Verb::Msg {
        routed_payload(payload_of(frame.argument))
    } else {
        RoutedActionView::Ignore
    }
}

/// The prefix that marks a lookup command.
pub open spec fn command_prefix() -> Seq<char> {
    "!imdb"@
}

/// The query that a message text asks for: the text must begin with the
/// command prefix, and what follows it, trimmed, must not be empty.
pub open spec fn query_of(data: Seq<char>) -> Option<Seq<char>> {
    let rest = trimmed(data.skip(command_prefix().len() as int));
    if command_prefix().is_prefix_of(data) && rest.len() > 0 {
        Some(rest)
    } else {
        None
    }
}

/// A text that does not begin with the command prefix asks for nothing,
/// wherever else the prefix may stand in it.
pub proof fn lemma_prefix_must_lead(data: Seq<char>)
    requires
        !command_prefix().is_prefix_of(data),
    ensures
        query_of(data) is None,
{
}

/// A query is never empty and has no whitespace at either end.
pub proof fn lemma_query_is_trimmed(data: Seq<char>)
    requires
        query_of(data) is Some,
    ensures
        query_of(data)->Some_0.len() > 0,
        !is_whitespace(query_of(data)->Some_0[0]),
        !is_whitespace(query_of(data)->Some_0.last()),
        command_prefix().is_prefix_of(data),
{
    lemma_trimmed(data.skip(command_prefix().len() as int));
}

/// A command with nothing but whitespace after the prefix asks for nothing.
pub proof fn lemma_blank_query_is_none(padding: Seq<char>)
    requires
        forall|k: int| 0 <= k < padding.len() ==> is_whitespace(padding[k]),
    ensures
        query_of(command_prefix() + padding) is None,
{
    let data = command_prefix() + padding;
    assert(data.skip(command_prefix().len() as int) =~= padding);
    lemma_trim_start(padding);
}

/// The content of an optional query.
pub open spec fn query_view(query: Option<SearchQuery>) -> Option<Seq<char>> {
    match query {
        Some(q) => Some(q@),
        None => None,
    }
}

/// Names the verb of a leading token.
pub fn recognize_verb(token: &str) -> (verb: Verb)
    ensures
        verb == verb_kind(token@),
{
    if same_text(token, "MSG") {
        Verb::Msg
    } else if same_text(token, "JOIN") {
        Verb::Join
    } else if same_text(token, "QUIT") {
        Verb::Quit
    } else {
        Verb::Other
    }
}

/// Routes the parse result of a chat message's argument: a payload is
/// handled, a failure is reported.
pub fn route_payload(outcome: Result<Msg, PayloadError>) -> (action: RoutedAction)
    ensures
        action@ == routed_payload(outcome_view(outcome)),
{
    match outcome {
        Ok(msg) => RoutedAction::HandleChatMessage(msg),
        Err(e) => RoutedAction::MalformedMessage(e),
    }
}

/// Decides what to do with a frame.
pub fn classify(frame: &ChatCommandFrame) -> (action: RoutedAction)
    ensures
        action@ == routed(frame@),
{
    match recognize_verb(frame.verb.as_str()) {
        Verb::Msg => route_payload(parse_payload(frame.argument.as_str())),
        _ => RoutedAction::Ignore,
    }
}

/// Extracts the query of a lookup command from a chat message, if it is one.
pub fn extract_command(payload: &Msg) -> (query: Option<SearchQuery>)
    ensures
        query_view(query) == query_of(payload@.data),
        query matches Some(q) ==> q.well_formed(),
{
    let data = payload.data.as_str();
    let chars = chars_of(data);
    let prefix = chars_of("!imdb");
    if !starts_with(&chars, &prefix) {
        return None;
    }
    let (start, end) = trim_bounds(&chars, prefix.len());
    if start == end {
        return None;
    }
    proof {
        lemma_trimmed(chars@.skip(prefix@.len() as int));
    }
    Some(SearchQuery { text: String::from_str(data.substring_char(start, end)) })
}

} // verus!
