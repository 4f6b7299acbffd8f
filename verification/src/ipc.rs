//! The control protocol: the messages that short-lived clients exchange with
//! the daemon over its socket, and the actions the daemon derives from them.

use vstd::prelude::*;

verus! {

/// The rendezvous point of the daemon and its clients.
pub const SOCKET_PATH: &'static str = "/tmp/spotify-manager/socket";

/// How many seconds a client waits for the reply to a status request before
/// it takes the daemon to be unresponsive.
pub const REPLY_TIMEOUT: u64 = 5;

/// A message on the control socket. One message travels per connection.
#[derive(Clone, Debug, PartialEq, Eq)]
pub enum ControlMessage {
    /// A client asks the daemon to fetch its working lists again.
    RefreshRequested,
    /// A client asks for the status line, and waits for the reply.
    StatusRequested,
    /// The daemon's reply to a status request.
    TrackInfo { text: String },
}

/// The signal by which a client asks for a refresh and nothing else.
#[derive(Clone, Copy, Debug, PartialEq, Eq, Structural)]
pub struct RefreshSignal;

/// One unit of work for the event loop.
#[derive(Clone, Copy, Debug, PartialEq, Eq, Structural)]
pub enum Action {
    /// Look up what is playing and compute the status line anew.
    Tick,
    /// Fetch the working lists again.
    RefreshCache,
    /// Send the status line to the client whose connection is `reply`.
    ReplyStatus { reply: u64 },
}

/// The action that a poll of the socket yields: a refresh for a refresh
/// request, a reply on the polled connection for a status request, and
/// nothing for a reply-direction message or where no message was decoded.
pub open spec fn spec_action_for(message: Option<ControlMessage>, reply: u64) -> Option<Action> {
    match message {
        Some(ControlMessage::RefreshRequested) => Some(Action::RefreshCache),
        Some(ControlMessage::StatusRequested) => Some(Action::ReplyStatus { reply }),
        Some(ControlMessage::TrackInfo { .. }) => None,
        None => None,
    }
}

/// Returns the action that a poll of the socket yields, given the message
/// decoded from the polled connection `reply`, or nothing where no client
/// was connecting or its message could not be decoded. Never fails: what is
/// no request is dropped.
pub fn action_for(message: Option<&ControlMessage>, reply: u64) -> (action: Option<Action>)
    ensures
        action == spec_action_for(
            match message {
                Some(message) => Some(*message),
                None => None,
            },
            reply,
        ),
{
    match message {
        Some(ControlMessage::RefreshRequested) => Some(Action::RefreshCache),
        Some(ControlMessage::StatusRequested) => Some(Action::ReplyStatus { reply }),
        Some(ControlMessage::TrackInfo { .. }) => None,
        None => None,
    }
}

impl RefreshSignal {
    /// Returns the message that stands for this signal.
    pub fn message(&self) -> (message: ControlMessage)
        ensures
            message == ControlMessage::RefreshRequested,
    {
        ControlMessage::RefreshRequested
    }
}

impl ControlMessage {
    /// Returns the status line that a reply carries; nothing where the
    /// message is no reply.
    pub fn status_text(&self) -> (text: Option<String>)
        ensures
            match *self {
                ControlMessage::TrackInfo { text: carried } => text is Some && text->0@ == carried@,
                _ => text is None,
            },
    {
        match self {
            ControlMessage::TrackInfo { text } => Some(text.clone()),
            _ => None,
        }
    }

    /// Returns the reply that carries the status line `text`.
    pub fn reply(text: String) -> (message: ControlMessage)
        ensures
            message == (ControlMessage::TrackInfo { text }),
    {
        ControlMessage::TrackInfo { text }
    }
}

/// Whatever a poll brings, the listener has an answer: nothing, a refresh,
/// or a reply on the polled connection. No poll yields a tick, and what is
/// no request yields nothing.
pub proof fn lemma_every_poll_is_answered(message: Option<ControlMessage>, reply: u64)
    ensures
        spec_action_for(message, reply) is None || spec_action_for(message, reply) == Some(
            Action::RefreshCache,
        ) || spec_action_for(message, reply) == Some(Action::ReplyStatus { reply }),
        message is None || message->0 is TrackInfo ==> spec_action_for(message, reply) is None,
{
}

} // verus!
