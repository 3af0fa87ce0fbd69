//! The session controller: the connection's life as a state machine, and
//! the path of one inbound line from frame to reply.

use crate::command::classify;
use crate::command::extract_command;
use crate::command::query_of;
use crate::command::routed;
use crate::command::verb_kind;
use crate::command::Verb;
use crate::command::RoutedAction;
use crate::command::RoutedActionView;
use crate::command::SearchQuery;
use crate::frame::argument_of;
use crate::frame::encode;
use crate::frame::split_verb_and_argument;
use crate::frame::verb_of;
use crate::frame::ChatCommandFrameView;
use crate::frame::ChatEvent;
use crate::frame::ChatEventView;
use crate::frame::FrameKind;
use crate::frame::RawFrame;
use crate::payload::PayloadError;
use crate::rank::best_index;
use crate::rank::rank_keys;
use crate::rank::select_best;
use crate::rank::Candidate;
use crate::reply::envelope;
use crate::reply::envelope_text;
use crate::reply::format_reply;
use crate::reply::reply_text;
use vstd::prelude::*;
use vstd::string::StringExecFns;
use vstd::utf8::encode_utf8;

verus! {

/// Where the connection stands.
#[derive(Clone, Copy, Debug, PartialEq, Eq, Structural)]
pub enum SessionState {
    Connecting,
    Open,
    Closed,
}

/// What is fixed for the whole session.
#[derive(Clone, Debug, PartialEq, Eq)]
pub struct SessionPolicy {
    /// Whether to connect again after the connection is lost.
    pub reconnect: bool,
    /// The line to announce the bot with once the connection is open.
    pub greeting: Option<String>,
    /// The address under which the detail pages of titles are found.
    pub detail_url_base: String,
}

/// What the caller has to do after an event.
#[derive(Clone, Debug, PartialEq, Eq)]
pub enum SessionAction {
    /// Nothing to do.
    Nothing,
    /// Send this line.
    Send(String),
    /// Search the index for this query, then answer with [`respond`].
    Lookup(SearchQuery),
    /// Note that a chat message could not be read, and go on.
    ReportMalformed(PayloadError),
    /// Open the connection again.
    Reconnect,
    /// End the session.
    Terminate,
}

/// The mathematical content of a [`SessionAction`].
pub enum SessionActionView {
    Nothing,
    Send(Seq<char>),
    Lookup(Seq<char>),
    ReportMalformed(PayloadError),
    Reconnect,
    Terminate,
}

impl View for SessionAction {
    type V = SessionActionView;

    open spec fn view(&self) -> SessionActionView {
        match self {
            SessionAction::Nothing => SessionActionView::Nothing,
            SessionAction::Send(line) => SessionActionView::Send(line@),
            SessionAction::Lookup(query) => SessionActionView::Lookup(query@),
            SessionAction::ReportMalformed(e) => SessionActionView::ReportMalformed(*e),
            SessionAction::Reconnect => SessionActionView::Reconnect,
            SessionAction::Terminate => SessionActionView::Terminate,
        }
    }
}

/// The state after an event, and what to do about it.
#[derive(Clone, Debug, PartialEq, Eq)]
pub struct Transition {
    pub next: SessionState,
    pub action: SessionAction,
}

/// Why the session cannot start.
#[derive(Clone, Copy, Debug, PartialEq, Eq, Structural)]
pub enum StartupError {
    /// No auth token is configured.
    MissingCredential,
}

/// The name of the header that carries the credential.
pub open spec fn credential_header_name() -> Seq<char> {
    "Cookie"@
}

/// The value of the header that carries the credential.
pub open spec fn credential_header_value(token: Seq<char>) -> Seq<char> {
    "jwt="@ + token
}

/// What a routed frame asks of the caller.
pub open spec fn action_of_routed(action: RoutedActionView) -> SessionActionView {
    match action {
        RoutedActionView::HandleChatMessage(msg) => match query_of(msg.data) {
            Some(query) => SessionActionView::Lookup(query),
            None => SessionActionView::Nothing,
        },
        RoutedActionView::Ignore => SessionActionView::Nothing,
        RoutedActionView::MalformedMessage(e) => SessionActionView::ReportMalformed(e),
    }
}

/// What an inbound line asks of the caller.
pub open spec fn text_action(raw: Seq<char>) -> SessionActionView {
    action_of_routed(
        routed(ChatCommandFrameView { verb: verb_of(raw), argument: argument_of(raw) }),
    )
}

/// What opening the connection asks of the caller.
pub open spec fn greeting_action(greeting: Option<Seq<char>>) -> SessionActionView {
    match greeting {
        Some(line) => SessionActionView::Send(line),
        None => SessionActionView::Nothing,
    }
}

/// The state that follows `state` on `event`. A closed session stays closed;
/// messages change nothing; losing the connection leads back to connecting
/// where the policy says so, and to the end otherwise.
pub open spec fn next_state(
    state: SessionState,
    reconnect: bool,
    event: ChatEventView,
) -> SessionState {
    match state {
        SessionState::Closed => SessionState::Closed,
        _ => match event {
            ChatEventView::ConnectionOpened => SessionState::Open,
            ChatEventView::TextMessage { .. } | ChatEventView::BinaryMessage { .. } => state,
            ChatEventView::ConnectionClosed { .. } | ChatEventView::ConnectionError { .. } => {
                if reconnect {
                    SessionState::Connecting
                } else {
                    SessionState::Closed
                }
            },
        },
    }
}

/// What `event` in `state` asks of the caller. Only an open session reads
/// lines, and only the step from connecting to open sends the greeting.
pub open spec fn action_for(
    state: SessionState,
    reconnect: bool,
    greeting: Option<Seq<char>>,
    event: ChatEventView,
) -> SessionActionView {
    match state {
        SessionState::Closed => SessionActionView::Nothing,
        _ => match event {
            ChatEventView::ConnectionOpened => if state == SessionState::Connecting {
                greeting_action(greeting)
            } else {
                SessionActionView::Nothing
            },
            ChatEventView::TextMessage { raw } => if state == SessionState::Open {
                text_action(raw)
            } else {
                SessionActionView::Nothing
            },
            ChatEventView::BinaryMessage { .. } => SessionActionView::Nothing,
            ChatEventView::ConnectionClosed { .. } | ChatEventView::ConnectionError { .. } => {
                if reconnect {
                    SessionActionView::Reconnect
                } else {
                    SessionActionView::Terminate
                }
            },
        },
    }
}

/// The content of an optional line.
pub open spec fn line_view(line: Option<String>) -> Option<Seq<char>> {
    match line {
        Some(text) => Some(text@),
        None => None,
    }
}

/// The frame that answers a lookup: none without hits, else the reply for
/// the hit with the most votes.
pub open spec fn response_payload(candidates: Seq<Candidate>, base: Seq<char>) -> Option<Seq<u8>> {
    if candidates.len() == 0 {
        None
    } else {
        Some(
            encode_utf8(
                envelope_text(reply_text(candidates[best_index(rank_keys(candidates))]@, base)),
            ),
        )
    }
}

/// An inbound line leads to a lookup, to a report, or to nothing: it never
/// makes the session send, reconnect or end by itself.
pub proof fn lemma_lines_ask_or_report(raw: Seq<char>)
    ensures
        text_action(raw) is Lookup || text_action(raw) is ReportMalformed || text_action(raw)
            is Nothing,
        text_action(raw) is Lookup ==> verb_kind(verb_of(raw)) == Verb::Msg,
        text_action(raw) is ReportMalformed ==> verb_kind(verb_of(raw)) == Verb::Msg,
{
}

/// A closed session stays closed and asks for nothing.
pub proof fn lemma_closed_is_final(
    reconnect: bool,
    greeting: Option<Seq<char>>,
    event: ChatEventView,
)
    ensures
        next_state(SessionState::Closed, reconnect, event) == SessionState::Closed,
        action_for(SessionState::Closed, reconnect, greeting, event) == SessionActionView::Nothing,
{
}

/// No message, whatever it holds, changes the state of the session.
pub proof fn lemma_messages_keep_state(state: SessionState, reconnect: bool, event: ChatEventView)
    requires
        event is TextMessage || event is BinaryMessage,
    ensures
        next_state(state, reconnect, event) == state,
{
}

/// A binary frame never reaches the command logic.
pub proof fn lemma_binary_is_inert(
    state: SessionState,
    reconnect: bool,
    greeting: Option<Seq<char>>,
    bytes: Seq<u8>,
)
    ensures
        action_for(state, reconnect, greeting, ChatEventView::BinaryMessage { bytes })
            == SessionActionView::Nothing,
{
}

/// The header that carries the credential into the handshake, as name and
/// value. Without a token the session cannot start.
pub fn credential_header(token: Option<&str>) -> (r: Result<(String, String), StartupError>)
    ensures
        token is None ==> r == Err::<(String, String), StartupError>(
            StartupError::MissingCredential,
        ),
        token matches Some(t) ==> r matches Ok(header) && header.0@ == credential_header_name()
            && header.1@ == credential_header_value(t@),
{
    match token {
        None => Err(StartupError::MissingCredential),
        Some(t) => {
            let name = String::from_str("Cookie");
            let mut value = String::from_str("jwt=");
            value.append(t);
            Ok((name, value))
        },
    }
}

/// What a routed frame asks of the caller.
pub fn act_on(routed: RoutedAction) -> (action: SessionAction)
    ensures
        action@ == action_of_routed(routed@),
{
    match routed {
        RoutedAction::HandleChatMessage(msg) => match extract_command(&msg) {
            Some(query) => SessionAction::Lookup(query),
            None => SessionAction::Nothing,
        },
        RoutedAction::Ignore => SessionAction::Nothing,
        RoutedAction::MalformedMessage(e) => SessionAction::ReportMalformed(e),
    }
}

/// Reads one inbound line: splits it, routes it, and extracts the query.
pub fn handle_text(raw: &str) -> (action: SessionAction)
    ensures
        action@ == text_action(raw@),
{
    let frame = split_verb_and_argument(raw);
    act_on(classify(&frame))
}

/// Advances the session by one event.
pub fn on_event(state: SessionState, policy: &SessionPolicy, event: &ChatEvent) -> (step:
    Transition)
    ensures
        step.next == next_state(state, policy.reconnect, event@),
        step.action@ == action_for(state, policy.reconnect, line_view(policy.greeting), event@),
{
    match state {
        SessionState::Closed => Transition {
            next: SessionState::Closed,
            action: SessionAction::Nothing,
        },
        _ => match event {
            ChatEvent::ConnectionOpened => {
                let action = match state {
                    SessionState::Connecting => match &policy.greeting {
                        Some(line) => SessionAction::Send(line.clone()),
                        None => SessionAction::Nothing,
                    },
                    _ => SessionAction::Nothing,
                };
                Transition { next: SessionState::Open, action }
            },
            ChatEvent::TextMessage { raw } => {
                let action = match state {
                    SessionState::Open => handle_text(raw.as_str()),
                    _ => SessionAction::Nothing,
                };
                Transition { next: state, action }
            },
            ChatEvent::BinaryMessage { .. } => Transition {
                next: state,
                action: SessionAction::Nothing,
            },
            ChatEvent::ConnectionClosed { .. } | ChatEvent::ConnectionError { .. } => {
                if policy.reconnect {
                    Transition { next: SessionState::Connecting, action: SessionAction::Reconnect }
                } else {
                    Transition { next: SessionState::Closed, action: SessionAction::Terminate }
                }
            },
        },
    }
}

/// The state after an explicit shutdown: closed, whatever it was.
pub fn shut_down(state: SessionState) -> (next: SessionState)
    ensures
        next == SessionState::Closed,
{
    SessionState::Closed
}

/// The state after an attempt to send: a failed send is an incident of its
/// own and leaves the session as it is.
pub fn after_send(state: SessionState, delivered: bool) -> (next: SessionState)
    ensures
        next == state,
{
    state
}

/// Answers a lookup: ranks the hits, formats the reply for the winner and
/// frames it. No hits, no frame.
pub fn respond(candidates: &Vec<Candidate>, detail_url_base: &str) -> (frame: Option<RawFrame>)
    ensures
        frame is None <==> candidates@.len() == 0,
        frame matches Some(f) ==> f.kind == FrameKind::Text && Some(f.payload@)
            == response_payload(candidates@, detail_url_base@),
{
    match select_best(candidates) {
        None => None,
        Some(selection) => {
            let reply = format_reply(&selection.candidate, detail_url_base);
            let line = envelope(reply.as_str());
            Some(encode(line.as_str()))
        },
    }
}

} // verus!
