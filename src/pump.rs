use vstd::prelude::*;
use vstd::string::StringExecFns;
use crate::registry::{attached_at, has_id, is_attached, retopic, without, Registry};

verus! {

/// Where a connection stands.
#[derive(Debug, Clone, Copy, PartialEq, Eq, Structural)]
pub enum Phase {
    /// Registered, waiting for the transport to be ready.
    Connecting,
    /// Relaying frames both ways.
    Active,
    /// The transport ended; waiting for both lanes to stop.
    Closing,
    /// The session has been released.
    Closed,
}

/// What the connection's driver is to do after a step.
#[derive(Debug, Clone, Copy, PartialEq, Eq, Structural)]
pub enum Action {
    /// Keep relaying.
    Continue,
    /// Stop both lanes and report `Stopped` when they have.
    Shutdown,
    /// The session could not take this connection: close it.
    Refuse,
    /// Nothing more to do.
    Done,
}

/// Something that happened on a connection.
pub enum PumpEvent {
    /// The transport is ready; this is the sending half of the session's
    /// outbound channel.
    Ready(tokio::sync::mpsc::UnboundedSender<String>),
    /// A text frame arrived, with the topics it parsed to as a subscription
    /// update, or `None` when it is not one.
    Text(String, Option<Vec<String>>),
    /// A frame that is not text arrived.
    Other,
    /// A read or write failed, or the peer closed.
    Ended,
    /// Both lanes have stopped.
    Stopped,
}

/// The mathematical picture of a `PumpEvent`.
pub enum PumpInput {
    Ready,
    Text(Seq<char>, Option<Seq<Seq<char>>>),
    Other,
    Ended,
    Stopped,
}

impl View for PumpEvent {
    type V = PumpInput;

    open spec fn view(&self) -> PumpInput {
        match self {
            PumpEvent::Ready(_) => PumpInput::Ready,
            PumpEvent::Text(t, p) => PumpInput::Text(t@, match p {
                Some(v) => Some(v.deep_view()),
                None => None,
            }),
            PumpEvent::Other => PumpInput::Other,
            PumpEvent::Ended => PumpInput::Ended,
            PumpEvent::Stopped => PumpInput::Stopped,
        }
    }
}

/// A liveness keep-alive frame: "ping", with or without a trailing newline.
pub open spec fn is_keep_alive(t: Seq<char>) -> bool {
    t == "ping"@ || t == "ping\n"@
}

/// Whether a text frame is a keep-alive, which is ignored.
pub fn keep_alive(t: &String) -> (r: bool)
    ensures
        r == is_keep_alive(t@),
{
    let a = String::from_str("ping");
    let b = String::from_str("ping\n");
    *t == a || *t == b
}

/// The phase, action and sessions after `input` arrives on the connection
/// of session `id` in `phase`.
pub open spec fn transition(
    s: Seq<crate::session::SessionView>,
    id: Seq<char>,
    phase: Phase,
    input: PumpInput,
) -> (Phase, Action, Seq<crate::session::SessionView>) {
    match (phase, input) {
        (Phase::Connecting, PumpInput::Ready) => {
            if has_id(s, id) && !is_attached(s, id) {
                (Phase::Active, Action::Continue, attached_at(s, id))
            } else {
                (Phase::Closed, Action::Refuse, s)
            }
        },
        (Phase::Connecting, PumpInput::Ended) => (Phase::Closing, Action::Shutdown, s),
        (Phase::Active, PumpInput::Text(t, parsed)) => {
            if is_keep_alive(t) {
                (Phase::Active, Action::Continue, s)
            } else {
                match parsed {
                    Some(topics) => (Phase::Active, Action::Continue, retopic(s, id, topics)),
                    None => (Phase::Active, Action::Continue, s),
                }
            }
        },
        (Phase::Active, PumpInput::Ended) => (Phase::Closing, Action::Shutdown, s),
        (Phase::Active, PumpInput::Stopped) => (Phase::Closed, Action::Done, without(s, id)),
        (Phase::Closing, PumpInput::Stopped) => (Phase::Closed, Action::Done, without(s, id)),
        (Phase::Closed, _) => (Phase::Closed, Action::Done, s),
        (p, _) => (p, Action::Continue, s),
    }
}

/// Applies one event to the connection of session `id`: attaches the
/// outbound channel when the transport is ready, applies subscription
/// updates, ignores keep-alives, malformed and non-text frames, and
/// releases the session once both lanes have stopped.
pub fn step(reg: &mut Registry, id: &String, phase: Phase, event: PumpEvent) -> (r: (Phase, Action))
    requires
        old(reg).wf(),
    ensures
        final(reg).wf(),
        r.0 == transition(old(reg)@, id@, phase, event@).0,
        r.1 == transition(old(reg)@, id@, phase, event@).1,
        final(reg)@ == transition(old(reg)@, id@, phase, event@).2,
{
    match (phase, event) {
        (Phase::Connecting, PumpEvent::Ready(tx)) => {
            match reg.attach(id, tx) {
                Ok(()) => (Phase::Active, Action::Continue),
                Err(_) => (Phase::Closed, Action::Refuse),
            }
        },
        (Phase::Connecting, PumpEvent::Ended) => (Phase::Closing, Action::Shutdown),
        (Phase::Active, PumpEvent::Text(t, parsed)) => {
            if !keep_alive(&t) {
                match parsed {
                    Some(topics) => reg.update_topics(id, topics),
                    None => {},
                }
            }
            (Phase::Active, Action::Continue)
        },
        (Phase::Active, PumpEvent::Ended) => (Phase::Closing, Action::Shutdown),
        (Phase::Active, PumpEvent::Stopped) | (Phase::Closing, PumpEvent::Stopped) => {
            reg.unregister(id);
            (Phase::Closed, Action::Done)
        },
        (Phase::Closed, _) => (Phase::Closed, Action::Done),
        (p, _) => (p, Action::Continue),
    }
}

} // verus!
