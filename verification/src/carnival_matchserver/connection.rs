//! The match server's side of the notification socket: authenticate, then
//! keep asking the web site for a match while no game is running, and hand
//! each match to the rest of the match server.

use vstd::prelude::*;
use vstd::string::*;
use crate::text::str_eq;

verus! {

/// Where the conversation with the web site stands.
#[derive(Clone, Copy, PartialEq, Eq, Structural, Debug)]
pub enum ConnState {
    /// The token was sent; waiting for the web site's answer.
    Authenticating,
    /// Authenticated; about to ask for a match unless a game is running.
    Polling,
    /// Asked for a match; waiting for the answer.
    AwaitingReply,
    /// Told that a match is ready; waiting for its data.
    AwaitingMatch,
    /// Handing the match data on; waiting to learn whether that worked.
    Forwarding,
    /// The conversation is over.
    Closed,
}

/// What happened since the last step.
#[derive(Debug)]
pub enum ConnEvent {
    /// A message was read from the socket (`None`: reading failed).
    Received(Option<String>),
    /// Whether a game is running now.
    GameStatus { has_game: bool },
    /// Whether the match data reached the rest of the match server.
    Forwarded { ok: bool },
}

/// What to do next, in order.
#[derive(Debug)]
pub enum ConnAction {
    /// Send a text message on the socket; failing to send is fatal.
    Send(String),
    /// Send a text message on the socket; a failure to send is ignored.
    Notify(String),
    /// Wait this many seconds.
    SleepSecs(u64),
    /// Hand the match data to the rest of the match server.
    Forward(String),
    /// Report that handing the match data on failed.
    ReportForwardFailure,
}

/// The mathematical meaning of an event.
pub enum ConnEventView {
    Received(Option<Seq<char>>),
    GameStatus(bool),
    Forwarded(bool),
}

/// The mathematical meaning of an action.
pub enum ConnActionView {
    Send(Seq<char>),
    Notify(Seq<char>),
    SleepSecs(u64),
    Forward(Seq<char>),
    ReportForwardFailure,
}

impl View for ConnEvent {
    type V = ConnEventView;

    open spec fn view(&self) -> ConnEventView {
        match self {
            ConnEvent::Received(Some(m)) => ConnEventView::Received(Some(m@)),
            ConnEvent::Received(None) => ConnEventView::Received(None),
            ConnEvent::GameStatus { has_game } => ConnEventView::GameStatus(*has_game),
            ConnEvent::Forwarded { ok } => ConnEventView::Forwarded(*ok),
        }
    }
}

impl View for ConnAction {
    type V = ConnActionView;

    open spec fn view(&self) -> ConnActionView {
        match self {
            ConnAction::Send(t) => ConnActionView::Send(t@),
            ConnAction::Notify(t) => ConnActionView::Notify(t@),
            ConnAction::SleepSecs(n) => ConnActionView::SleepSecs(*n),
            ConnAction::Forward(d) => ConnActionView::Forward(d@),
            ConnAction::ReportForwardFailure => ConnActionView::ReportForwardFailure,
        }
    }
}

/// The meaning of a list of actions.
pub open spec fn actions_view(v: Seq<ConnAction>) -> Seq<ConnActionView> {
    v.map_values(|a: ConnAction| a@)
}

/// The token the match server authenticates with.
pub open spec fn auth_message() -> Seq<char> {
    "auth:debugtoken69"@
}

/// The next state and the actions of one step of the conversation.
pub open spec fn conn_step(state: ConnState, event: ConnEventView) -> (ConnState, Seq<ConnActionView>) {
    match (state, event) {
        (ConnState::Authenticating, ConnEventView::Received(Some(_))) => (ConnState::Polling, seq![]),
        (ConnState::Authenticating, ConnEventView::Received(None)) => (ConnState::Closed, seq![]),
        // No other match is asked for while a game is running.
        (ConnState::Polling, ConnEventView::GameStatus(true)) => (
            ConnState::Polling,
            seq![ConnActionView::SleepSecs(5)],
        ),
        (ConnState::Polling, ConnEventView::GameStatus(false)) => (
            ConnState::AwaitingReply,
            seq![ConnActionView::Send("match?"@)],
        ),
        (ConnState::AwaitingReply, ConnEventView::Received(None)) => (ConnState::Polling, seq![]),
        (ConnState::AwaitingReply, ConnEventView::Received(Some(r))) => if r == "match"@ {
            (ConnState::AwaitingMatch, seq![])
        } else {
            // Check again in 5 seconds.
            (ConnState::Polling, seq![ConnActionView::SleepSecs(5)])
        },
        (ConnState::AwaitingMatch, ConnEventView::Received(None)) => (ConnState::Polling, seq![]),
        // Tell the web site that the data arrived, then hand it on.
        (ConnState::AwaitingMatch, ConnEventView::Received(Some(d))) => (
            ConnState::Forwarding,
            seq![ConnActionView::Notify("match ack"@), ConnActionView::Forward(d)],
        ),
        (ConnState::Forwarding, ConnEventView::Forwarded(true)) => (
            ConnState::Polling,
            seq![ConnActionView::Notify("match lobby"@)],
        ),
        (ConnState::Forwarding, ConnEventView::Forwarded(false)) => (
            ConnState::Polling,
            seq![ConnActionView::ReportForwardFailure],
        ),
        _ => (state, seq![]),
    }
}

/// Opens the conversation: send the token and wait for the answer.
pub fn connect_start() -> (r: (ConnState, Vec<ConnAction>))
    ensures
        r.0 == ConnState::Authenticating,
        actions_view(r.1@) == seq![ConnActionView::Send(auth_message())],
{
    let mut actions: Vec<ConnAction> = Vec::new();
    actions.push(ConnAction::Send(String::from_str("auth:debugtoken69")));
    assert(actions_view(actions@) =~= seq![ConnActionView::Send(auth_message())]);
    (ConnState::Authenticating, actions)
}

/// One step of the conversation: the next state and what to do.
pub fn connect_step(state: ConnState, event: ConnEvent) -> (r: (ConnState, Vec<ConnAction>))
    ensures
        (r.0, actions_view(r.1@)) == conn_step(state, event@),
{
    let ghost ev = event@;
    let mut actions: Vec<ConnAction> = Vec::new();
    let next = match (state, event) {
        (ConnState::Authenticating, ConnEvent::Received(Some(_))) => ConnState::Polling,
        (ConnState::Authenticating, ConnEvent::Received(None)) => ConnState::Closed,
        (ConnState::Polling, ConnEvent::GameStatus { has_game }) => {
            if has_game {
                actions.push(ConnAction::SleepSecs(5));
                ConnState::Polling
            } else {
                actions.push(ConnAction::Send(String::from_str("match?")));
                ConnState::AwaitingReply
            }
        },
        (ConnState::AwaitingReply, ConnEvent::Received(None)) => ConnState::Polling,
        (ConnState::AwaitingReply, ConnEvent::Received(Some(resp))) => {
            if str_eq(resp.as_str(), "match") {
                ConnState::AwaitingMatch
            } else {
                actions.push(ConnAction::SleepSecs(5));
                ConnState::Polling
            }
        },
        (ConnState::AwaitingMatch, ConnEvent::Received(None)) => ConnState::Polling,
        (ConnState::AwaitingMatch, ConnEvent::Received(Some(data))) => {
            actions.push(ConnAction::Notify(String::from_str("match ack")));
            actions.push(ConnAction::Forward(data));
            ConnState::Forwarding
        },
        (ConnState::Forwarding, ConnEvent::Forwarded { ok }) => {
            if ok {
                actions.push(ConnAction::Notify(String::from_str("match lobby")));
            } else {
                actions.push(ConnAction::ReportForwardFailure);
            }
            ConnState::Polling
        },
        (s, _) => s,
    };
    assert((next, actions_view(actions@)) =~= conn_step(state, ev));
    (next, actions)
}

/// Match data is handed on only in the step that receives it right after the
/// web site said a match is ready, and only after the web site has been told
/// that the data arrived.
pub proof fn law_forward_only_after_announced_match(state: ConnState, event: ConnEventView, i: int)
    requires
        0 <= i < conn_step(state, event).1.len(),
        conn_step(state, event).1[i] is Forward,
    ensures
        state == ConnState::AwaitingMatch,
        event matches ConnEventView::Received(Some(d)) && conn_step(state, event).1[i]
            == ConnActionView::Forward(d),
        i == 1 && conn_step(state, event).1[0] == ConnActionView::Notify("match ack"@),
        conn_step(state, event).0 == ConnState::Forwarding,
{
}

/// The polling conversation: while a game runs the match server waits five
/// seconds and asks nothing; otherwise it asks "match?"; any answer other
/// than "match" means waiting five seconds and polling again, and "match"
/// means the next message is the match data.
pub proof fn law_polling_conversation(reply: Seq<char>)
    ensures
        conn_step(ConnState::Polling, ConnEventView::GameStatus(true)) == (
            ConnState::Polling,
            seq![ConnActionView::SleepSecs(5)],
        ),
        conn_step(ConnState::Polling, ConnEventView::GameStatus(false)) == (
            ConnState::AwaitingReply,
            seq![ConnActionView::Send("match?"@)],
        ),
        reply != "match"@ ==> conn_step(ConnState::AwaitingReply, ConnEventView::Received(Some(reply)))
            == (ConnState::Polling, seq![ConnActionView::SleepSecs(5)]),
        conn_step(ConnState::AwaitingReply, ConnEventView::Received(Some("match"@))) == (
            ConnState::AwaitingMatch,
            Seq::<ConnActionView>::empty(),
        ),
{
}

} // verus!
