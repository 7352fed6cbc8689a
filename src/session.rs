use vstd::prelude::*;

verus! {

/// The sending half of a session's unbounded, ordered outbound channel.
#[verifier::external_type_specification]
#[verifier::external_body]
#[verifier::reject_recursive_types(T)]
pub struct ExUnboundedSender<T>(tokio::sync::mpsc::UnboundedSender<T>);

/// Relies on tokio's `UnboundedSender::send`: it queues the message and
/// returns `Ok` unless the receiving half has been closed or dropped.
/// Whether the channel is still open is not known here, so nothing is
/// promised of the result.
#[verifier::external_body]
pub(crate) fn send_outbound(tx: &tokio::sync::mpsc::UnboundedSender<String>, msg: String) -> (sent: bool) {
    tx.send(msg).is_ok()
}

/// The outbound side of a session: absent until the connection is
/// established, attached from then on.
pub enum Outbound {
    Absent,
    Attached(tokio::sync::mpsc::UnboundedSender<String>),
}

impl Outbound {
    pub open spec fn is_attached(&self) -> bool {
        self is Attached
    }

    /// Whether the channel has been attached.
    pub fn is_attached_exec(&self) -> (r: bool)
        ensures
            r == self.is_attached(),
    {
        match self {
            Outbound::Absent => false,
            Outbound::Attached(_) => true,
        }
    }
}

/// One registered client: its identifier, the user owning it, the topics it
/// wants delivered, and its outbound channel.
pub struct Session {
    pub id: String,
    pub owner: usize,
    pub topics: Vec<String>,
    pub outbound: Outbound,
}

/// The mathematical picture of a session.
pub struct SessionView {
    pub id: Seq<char>,
    pub owner: usize,
    pub topics: Seq<Seq<char>>,
    pub attached: bool,
}

impl View for Session {
    type V = SessionView;

    open spec fn view(&self) -> SessionView {
        SessionView {
            id: self.id@,
            owner: self.owner,
            topics: self.topics.deep_view(),
            attached: self.outbound.is_attached(),
        }
    }
}

impl Session {
    /// A freshly registered session: no topics and no outbound channel yet.
    pub fn new(id: String, owner: usize) -> (s: Session)
        ensures
            s@ == (SessionView { id: id@, owner, topics: Seq::empty(), attached: false }),
    {
        let s = Session { id, owner, topics: Vec::new(), outbound: Outbound::Absent };
        assert(s.topics.deep_view() =~= Seq::<Seq<char>>::empty());
        s
    }
}

/// What became of one message handed to a session: the session, the
/// message, and whether its channel accepted it. Only `Session::deliver`
/// makes one.
pub struct Receipt {
    id: String,
    message: String,
    sent: bool,
}

pub struct ReceiptView {
    pub id: Seq<char>,
    pub message: Seq<char>,
    pub sent: bool,
}

impl View for Receipt {
    type V = ReceiptView;

    closed spec fn view(&self) -> ReceiptView {
        ReceiptView { id: self.id@, message: self.message@, sent: self.sent }
    }
}

impl Receipt {
    /// The session the message was handed to.
    pub fn id(&self) -> (r: &String)
        ensures
            r@ == self@.id,
    {
        &self.id
    }

    /// The message that was handed over.
    pub fn message(&self) -> (r: &String)
        ensures
            r@ == self@.message,
    {
        &self.message
    }

    /// Whether the session's channel accepted the message.
    pub fn sent(&self) -> (r: bool)
        ensures
            r == self@.sent,
    {
        self.sent
    }
}

impl Session {
    /// Hands `msg` to this session's outbound channel, when it has one. A
    /// session without a channel, or whose channel is closed, does not
    /// take it.
    pub fn deliver(&self, msg: &String) -> (r: Receipt)
        ensures
            r@.id == self@.id,
            r@.message == msg@,
            r@.sent ==> self@.attached,
    {
        let sent = match &self.outbound {
            Outbound::Attached(tx) => send_outbound(tx, msg.clone()),
            Outbound::Absent => false,
        };
        Receipt { id: self.id.clone(), message: msg.clone(), sent }
    }
}

/// The identifiers of the receipts whose message was accepted, in order.
pub open spec fn accepted_ids(rs: Seq<ReceiptView>) -> Seq<Seq<char>>
    decreases rs.len(),
{
    if rs.len() == 0 {
        Seq::empty()
    } else if rs.last().sent {
        accepted_ids(rs.drop_last()).push(rs.last().id)
    } else {
        accepted_ids(rs.drop_last())
    }
}

/// The identifiers of the sessions whose channel accepted their message,
/// in the order of `receipts`.
pub fn delivered(receipts: &Vec<Receipt>) -> (r: Vec<String>)
    ensures
        r.deep_view() == accepted_ids(receipts@.map_values(|x: Receipt| x@)),
{
    let ghost rs = receipts@.map_values(|x: Receipt| x@);
    let mut r: Vec<String> = Vec::new();
    let mut i: usize = 0;
    while i < receipts.len()
        invariant
            0 <= i <= receipts.len(),
            rs == receipts@.map_values(|x: Receipt| x@),
            r.deep_view() == accepted_ids(rs.subrange(0, i as int)),
        decreases receipts.len() - i,
    {
        assert(rs.subrange(0, i + 1).drop_last() =~= rs.subrange(0, i as int));
        if receipts[i].sent() {
            let id = receipts[i].id().clone();
            r.push(id);
            assert(r.deep_view() =~= accepted_ids(rs.subrange(0, i as int)).push(rs[i as int].id));
        }
        i += 1;
    }
    assert(rs.subrange(0, i as int) =~= rs);
    r
}

/// A published event, as the dispatcher sees it.
pub struct Event {
    pub topic: String,
    pub user_id: Option<usize>,
    pub message: String,
}

pub struct EventView {
    pub topic: Seq<char>,
    pub user_id: Option<usize>,
    pub message: Seq<char>,
}

impl View for Event {
    type V = EventView;

    open spec fn view(&self) -> EventView {
        EventView { topic: self.topic@, user_id: self.user_id, message: self.message@ }
    }
}

/// Whether an event is addressed to a session: to every session of the
/// named user when the event names one, regardless of topic; otherwise to
/// every session subscribed to the event's topic.
pub open spec fn addressed_to(s: SessionView, ev: EventView) -> bool {
    match ev.user_id {
        Some(u) => s.owner == u,
        None => s.topics.contains(ev.topic),
    }
}

/// Whether `topics` holds `topic`, by exact string equality.
pub fn has_topic(topics: &Vec<String>, topic: &String) -> (r: bool)
    ensures
        r == topics.deep_view().contains(topic@),
{
    let mut i: usize = 0;
    while i < topics.len()
        invariant
            0 <= i <= topics.len(),
            forall|j: int| 0 <= j < i ==> topics@[j]@ != topic@,
        decreases topics.len() - i,
    {
        if topics[i] == *topic {
            assert(topics.deep_view()[i as int] == topic@);
            return true;
        }
        i += 1;
    }
    proof {
        if topics.deep_view().contains(topic@) {
            let j = choose|j: int| 0 <= j < topics.deep_view().len() && topics.deep_view()[j] == topic@;
            assert(topics@[j]@ == topic@);
        }
    }
    false
}

impl Event {
    /// Whether this event is addressed to `s` (see `addressed_to`).
    pub fn is_for(&self, s: &Session) -> (r: bool)
        ensures
            r == addressed_to(s@, self@),
    {
        match self.user_id {
            Some(u) => s.owner == u,
            None => has_topic(&s.topics, &self.topic),
        }
    }
}

} // verus!
