//! The broadcast hub: one outbound stream that fans out to every connected
//! viewer, and one inbound queue that collects what the viewers send.
//!
//! The hub holds the state only. Each connection has an outbox; a broadcast
//! puts the payload into the outbox of every viewer, and the connection's
//! relay drains its own outbox to the socket. A viewer that has fallen a
//! whole outbox behind is dropped, so that a slow viewer never holds up the
//! others.

use vstd::prelude::*;
use crate::events::ClientMessage;
use crate::json::{json_text, render};

verus! {

/// The usual number of payloads that an outbox holds at most.
pub const DEFAULT_CAPACITY: usize = 100;

/// What the hub knows of one viewer.
pub struct ViewerLog {
    /// Every payload that was ever queued for the viewer, oldest first.
    pub received: Seq<Seq<char>>,
    /// The payloads that its relay has not taken yet: the tail of `received`.
    pub pending: Seq<Seq<char>>,
}

/// The state of the hub, as the contracts see it.
pub struct HubState {
    /// How many payloads an outbox holds at most.
    pub capacity: nat,
    /// The connected viewers, by id.
    pub viewers: Map<u64, ViewerLog>,
    /// The messages that viewers sent, in the order of their arrival.
    pub inbound: Seq<Seq<char>>,
    /// The id that the next viewer gets.
    pub next_id: nat,
}

impl ViewerLog {
    /// What is pending is the tail of what was received: the relay has taken
    /// the payloads in the order of their arrival and left out none.
    pub open spec fn wf(self) -> bool {
        &&& self.pending.len() <= self.received.len()
        &&& self.pending == self.received.skip(self.received.len() - self.pending.len())
    }

    /// What the relay has taken so far: what was received and is no longer
    /// pending.
    pub open spec fn taken(self) -> Seq<Seq<char>> {
        self.received.take(self.received.len() - self.pending.len())
    }

    /// The log of a viewer that has just connected and was greeted.
    pub open spec fn greeted(greeting: Seq<char>) -> ViewerLog {
        ViewerLog { received: seq![greeting], pending: seq![greeting] }
    }

    /// The log with one more payload queued.
    pub open spec fn with(self, payload: Seq<char>) -> ViewerLog {
        ViewerLog { received: self.received.push(payload), pending: self.pending.push(payload) }
    }

    /// The log after the relay has taken what was pending.
    pub open spec fn drained(self) -> ViewerLog {
        ViewerLog { received: self.received, pending: Seq::empty() }
    }
}

impl HubState {
    /// Viewer `id` is connected.
    pub open spec fn connected(self, id: u64) -> bool {
        self.viewers.contains_key(id)
    }

    /// The state is one that the hub can be in: ids are handed out in
    /// ascending order and never twice, and what is pending for a viewer is
    /// the tail of what it received.
    pub open spec fn wf(self) -> bool {
        &&& self.next_id <= u64::MAX
        &&& forall|id: u64| #[trigger] self.viewers.contains_key(id) ==> id < self.next_id
        &&& forall|id: u64| #[trigger] self.viewers.contains_key(id) ==> self.viewers[id].wf()
    }

    /// The hub can take one more viewer.
    pub open spec fn has_room(self) -> bool {
        self.next_id < u64::MAX
    }

    /// A new viewer is registered under the next id and greeted, alone.
    pub open spec fn connect(self, greeting: Seq<char>) -> HubState {
        if self.has_room() {
            HubState {
                viewers: self.viewers.insert(self.next_id as u64, ViewerLog::greeted(greeting)),
                next_id: self.next_id + 1,
                ..self
            }
        } else {
            self
        }
    }

    /// Viewer `id` leaves.
    pub open spec fn disconnect(self, id: u64) -> HubState {
        HubState { viewers: self.viewers.remove(id), ..self }
    }

    /// Viewer `id` still has room in its outbox.
    pub open spec fn keeps_up(self, id: u64) -> bool {
        self.viewers.contains_key(id) && self.viewers[id].pending.len() < self.capacity
    }

    /// Every viewer that keeps up gets the payload; the others are dropped.
    pub open spec fn broadcast(self, payload: Seq<char>) -> HubState {
        HubState {
            viewers: Map::new(|id: u64| self.keeps_up(id), |id: u64| self.viewers[id].with(payload)),
            ..self
        }
    }

    /// The state with other viewers, all else the same.
    pub open spec fn with_viewers(self, viewers: Map<u64, ViewerLog>) -> HubState {
        HubState { viewers, ..self }
    }

    /// The relay of viewer `id` takes what is pending for it.
    pub open spec fn drain(self, id: u64) -> HubState {
        if self.connected(id) {
            HubState { viewers: self.viewers.insert(id, self.viewers[id].drained()), ..self }
        } else {
            self
        }
    }

    /// A message of a viewer joins the queue at its end.
    pub open spec fn enqueue(self, message: Seq<char>) -> HubState {
        HubState { inbound: self.inbound.push(message), ..self }
    }

    /// The oldest message leaves the queue, if there is one.
    pub open spec fn dequeue(self) -> HubState {
        if self.inbound.len() > 0 {
            HubState { inbound: self.inbound.drop_first(), ..self }
        } else {
            self
        }
    }
}

/// One connected viewer.
pub struct Subscriber {
    id: u64,
    outbox: Vec<String>,
    received: Ghost<Seq<Seq<char>>>,
}

impl Subscriber {
    /// What the hub knows of this viewer.
    pub closed spec fn log(&self) -> ViewerLog {
        ViewerLog { received: self.received@, pending: self.outbox@.map_values(|p: String| p@) }
    }

    /// The id of this viewer.
    pub closed spec fn id(&self) -> u64 {
        self.id
    }
}

/// The viewers in `subscribers`, by id.
pub open spec fn viewers_of(subscribers: Seq<Subscriber>) -> Map<u64, ViewerLog>
    decreases subscribers.len(),
{
    if subscribers.len() == 0 {
        Map::empty()
    } else {
        viewers_of(subscribers.drop_last()).insert(subscribers.last().id(), subscribers.last().log())
    }
}

/// No two of `subscribers` share an id.
pub open spec fn distinct_ids(subscribers: Seq<Subscriber>) -> bool {
    forall|i: int, j: int|
        0 <= i < j < subscribers.len() ==> #[trigger] subscribers[i].id()
            != #[trigger] subscribers[j].id()
}

proof fn lemma_viewers_of_ids(subscribers: Seq<Subscriber>)
    ensures
        forall|id: u64| #[trigger]
            viewers_of(subscribers).contains_key(id) ==> exists|i: int|
                0 <= i < subscribers.len() && #[trigger] subscribers[i].id() == id,
        forall|i: int|
            0 <= i < subscribers.len() ==> viewers_of(subscribers).contains_key(
                #[trigger] subscribers[i].id(),
            ),
    decreases subscribers.len(),
{
    if subscribers.len() > 0 {
        let earlier = subscribers.drop_last();
        lemma_viewers_of_ids(earlier);
        assert forall|id: u64| #[trigger]
            viewers_of(subscribers).contains_key(id) implies exists|i: int|
            0 <= i < subscribers.len() && #[trigger] subscribers[i].id() == id by {
            if id == subscribers.last().id() {
                assert(subscribers[subscribers.len() - 1].id() == id);
            } else {
                assert(viewers_of(earlier).contains_key(id));
                let i = choose|i: int| 0 <= i < earlier.len() && #[trigger] earlier[i].id() == id;
                assert(subscribers[i].id() == id);
            }
        }
        assert forall|i: int| 0 <= i < subscribers.len() implies viewers_of(
            subscribers,
        ).contains_key(#[trigger] subscribers[i].id()) by {
            if i < subscribers.len() - 1 {
                assert(earlier[i].id() == subscribers[i].id());
            }
        }
    }
}

/// The hub.
pub struct WebSocketServer {
    capacity: usize,
    subscribers: Vec<Subscriber>,
    client_messages: Vec<ClientMessage>,
    next_id: u64,
}

impl View for WebSocketServer {
    type V = HubState;

    closed spec fn view(&self) -> HubState {
        HubState {
            capacity: self.capacity as nat,
            viewers: viewers_of(self.subscribers@),
            inbound: self.client_messages@.map_values(|m: ClientMessage| m@),
            next_id: self.next_id as nat,
        }
    }
}

impl WebSocketServer {
    /// The hub keeps its viewers apart: no id is held twice, and none that is
    /// yet to be handed out.
    pub closed spec fn wf(&self) -> bool {
        &&& distinct_ids(self.subscribers@)
        &&& self@.wf()
    }

    /// A hub without viewers and without messages, whose outboxes hold up to
    /// `capacity` payloads.
    pub fn new(capacity: usize) -> (hub: WebSocketServer)
        ensures
            hub.wf(),
            hub@.wf(),
            hub@ == (HubState {
                capacity: capacity as nat,
                viewers: Map::empty(),
                inbound: Seq::empty(),
                next_id: 0,
            }),
    {
        let hub = WebSocketServer {
            capacity,
            subscribers: Vec::new(),
            client_messages: Vec::new(),
            next_id: 0,
        };
        assert(hub@.inbound =~= Seq::empty());
        hub
    }

    /// Registers a new viewer and queues the greeting for it alone. Returns
    /// its id, or `None` where the hub has handed out every id it has.
    pub fn connect(&mut self, greeting: &serde_json::Value) -> (id: Option<u64>)
        requires
            old(self).wf(),
        ensures
            final(self).wf(),
            final(self)@.wf(),
            final(self)@ == old(self)@.connect(json_text(*greeting)),
            id == if old(self)@.has_room() {
                Some(old(self)@.next_id as u64)
            } else {
                None
            },
    {
        if self.next_id == u64::MAX {
            return None;
        }
        let id = self.next_id;
        let greeting = render(greeting);
        let mut outbox: Vec<String> = Vec::new();
        outbox.push(greeting);
        let ghost received = Seq::<Seq<char>>::empty().push(greeting@);
        let subscriber = Subscriber { id, outbox, received: Ghost(received) };
        assert(subscriber.log().pending =~= seq![greeting@]);
        assert(subscriber.log().received =~= seq![greeting@]);
        proof {
            lemma_viewers_of_ids(self.subscribers@);
        }
        let ghost before = self.subscribers@;
        self.subscribers.push(subscriber);
        self.next_id = id + 1;
        proof {
            assert(self.subscribers@.drop_last() =~= before);
            assert forall|i: int, j: int| 0 <= i < j < self.subscribers@.len() implies #[trigger]
                self.subscribers@[i].id() != #[trigger] self.subscribers@[j].id() by {
                if j == before.len() {
                    assert(before[i].id() == self.subscribers@[i].id());
                    assert(viewers_of(before).contains_key(before[i].id()));
                    assert(old(self)@.viewers.contains_key(before[i].id()));
                } else {
                    assert(before[i].id() != before[j].id());
                }
            }
        }
        assert(self@.viewers == old(self)@.viewers.insert(id, ViewerLog::greeted(greeting@)));
        proof {
            lemma_apply_keeps_wf(old(self)@, HubOp::Connect(greeting@));
        }
        Some(id)
    }

    /// Tells whether viewer `id` is connected.
    pub fn is_connected(&self, id: u64) -> (connected: bool)
        ensures
            connected == self@.connected(id),
    {
        let mut i: usize = 0;
        while i < self.subscribers.len()
            invariant
                i <= self.subscribers.len(),
                forall|j: int| 0 <= j < i ==> (#[trigger] self.subscribers@[j]).id() != id,
            decreases self.subscribers.len() - i,
        {
            if self.subscribers[i].id == id {
                proof {
                    lemma_viewers_of_ids(self.subscribers@);
                    assert(self.subscribers@[i as int].id() == id);
                }
                return true;
            }
            i += 1;
        }
        proof {
            lemma_viewers_of_ids(self.subscribers@);
        }
        false
    }

    /// The number of connected viewers.
    pub fn viewer_count(&self) -> (count: usize)
        requires
            self.wf(),
        ensures
            count == self@.viewers.dom().len(),
            self@.viewers.dom().finite(),
    {
        proof {
            lemma_viewer_count(self.subscribers@);
        }
        self.subscribers.len()
    }

    /// Sends the compact text of `value` to every connected viewer: it joins
    /// each outbox at its end. A viewer whose outbox is full is dropped
    /// instead, and the others get the payload all the same.
    pub fn broadcast_json(&mut self, value: &serde_json::Value)
        requires
            old(self).wf(),
        ensures
            final(self).wf(),
            final(self)@.wf(),
            final(self)@ == old(self)@.broadcast(json_text(*value)),
    {
        let text = render(value);
        let payload = text.as_str();
        let ghost start = self@;
        let mut all: Vec<Subscriber> = Vec::new();
        std::mem::swap(&mut all, &mut self.subscribers);
        let ghost whole = all@;
        let capacity = self.capacity;
        let mut kept: Vec<Subscriber> = Vec::new();
        assert(whole.take(0) =~= Seq::empty());
        assert(viewers_of(kept@) =~= start.with_viewers(viewers_of(whole.take(0))).broadcast(
            payload@,
        ).viewers);
        for subscriber in it: all
            invariant
                whole == it.seq(),
                distinct_ids(whole),
                distinct_ids(kept@),
                capacity == start.capacity,
                viewers_of(kept@) == start.with_viewers(
                    viewers_of(whole.take(it.index() as int)),
                ).broadcast(payload@).viewers,
        {
            let ghost n = it.index() as int;
            let ghost seen = viewers_of(whole.take(n));
            let ghost sent = start.with_viewers(seen).broadcast(payload@).viewers;
            proof {
                lemma_distinct_prefix(whole, n);
                lemma_viewers_push(whole.take(n), subscriber);
            }
            let ghost seen_next = seen.insert(subscriber.id(), subscriber.log());
            if subscriber.outbox.len() < capacity {
                let Subscriber { id, outbox, received } = subscriber;
                let mut outbox = outbox;
                outbox.push(payload.to_string());
                let ghost log = received@.push(payload@);
                let served = Subscriber { id, outbox, received: Ghost(log) };
                proof {
                    assert(served.log().pending =~= subscriber.log().pending.push(payload@));
                    assert(served.log() == subscriber.log().with(payload@));
                    lemma_viewers_push(kept@, served);
                    lemma_distinct_push(kept@, served);
                    assert(sent.insert(id, served.log()) =~= start.with_viewers(
                        seen_next,
                    ).broadcast(payload@).viewers);
                }
                kept.push(served);
            } else {
                proof {
                    assert(sent =~= start.with_viewers(seen_next).broadcast(payload@).viewers);
                }
            }
        }
        assert(whole.take(whole.len() as int) =~= whole);
        self.subscribers = kept;
        assert(self@.viewers == start.broadcast(payload@).viewers);
        proof {
            lemma_apply_keeps_wf(start, HubOp::Broadcast(payload@));
        }
    }

    /// Drops viewer `id`. Where no such viewer is connected, nothing changes.
    pub fn disconnect(&mut self, id: u64)
        requires
            old(self).wf(),
        ensures
            final(self).wf(),
            final(self)@.wf(),
            final(self)@ == old(self)@.disconnect(id),
    {
        let ghost start = self@;
        let mut all: Vec<Subscriber> = Vec::new();
        std::mem::swap(&mut all, &mut self.subscribers);
        let ghost whole = all@;
        let mut kept: Vec<Subscriber> = Vec::new();
        assert(whole.take(0) =~= Seq::empty());
        assert(viewers_of(kept@) =~= viewers_of(whole.take(0)).remove(id));
        for subscriber in it: all
            invariant
                whole == it.seq(),
                distinct_ids(whole),
                distinct_ids(kept@),
                viewers_of(kept@) == viewers_of(whole.take(it.index() as int)).remove(id),
        {
            let ghost n = it.index() as int;
            let ghost seen = viewers_of(whole.take(n));
            proof {
                lemma_distinct_prefix(whole, n);
                lemma_viewers_push(whole.take(n), subscriber);
            }
            if subscriber.id != id {
                proof {
                    lemma_viewers_push(kept@, subscriber);
                    lemma_distinct_push(kept@, subscriber);
                    assert(seen.remove(id).insert(subscriber.id(), subscriber.log())
                        =~= seen.insert(subscriber.id(), subscriber.log()).remove(id));
                }
                kept.push(subscriber);
            } else {
                proof {
                    assert(seen.remove(id) =~= seen.insert(subscriber.id(), subscriber.log()).remove(
                        id,
                    ));
                }
            }
        }
        assert(whole.take(whole.len() as int) =~= whole);
        self.subscribers = kept;
        proof {
            lemma_apply_keeps_wf(start, HubOp::Disconnect(id));
        }
    }

    /// Takes what is pending for viewer `id`, oldest first, for its relay to
    /// send. `None` means that the viewer is not connected.
    pub fn take_outbound(&mut self, id: u64) -> (payloads: Option<Vec<String>>)
        requires
            old(self).wf(),
        ensures
            final(self).wf(),
            final(self)@.wf(),
            final(self)@ == old(self)@.drain(id),
            match payloads {
                Some(taken) => old(self)@.connected(id) && taken@.map_values(|p: String| p@)
                    == old(self)@.viewers[id].pending,
                None => !old(self)@.connected(id),
            },
    {
        let ghost start = self@;
        let mut all: Vec<Subscriber> = Vec::new();
        std::mem::swap(&mut all, &mut self.subscribers);
        let ghost whole = all@;
        let mut kept: Vec<Subscriber> = Vec::new();
        let mut payloads: Option<Vec<String>> = None;
        assert(whole.take(0) =~= Seq::empty());
        for subscriber in it: all
            invariant
                whole == it.seq(),
                distinct_ids(whole),
                distinct_ids(kept@),
                viewers_of(kept@) == start.with_viewers(
                    viewers_of(whole.take(it.index() as int)),
                ).drain(id).viewers,
                match payloads {
                    Some(taken) => viewers_of(whole.take(it.index() as int)).contains_key(id)
                        && taken@.map_values(|p: String| p@) == viewers_of(
                        whole.take(it.index() as int),
                    )[id].pending,
                    None => !viewers_of(whole.take(it.index() as int)).contains_key(id),
                },
        {
            let ghost n = it.index() as int;
            let ghost seen = viewers_of(whole.take(n));
            let ghost seen_next = seen.insert(subscriber.id(), subscriber.log());
            proof {
                lemma_distinct_prefix(whole, n);
                lemma_viewers_push(whole.take(n), subscriber);
            }
            if subscriber.id == id {
                let Subscriber { id: own, outbox, received } = subscriber;
                let emptied = Subscriber { id: own, outbox: Vec::new(), received };
                proof {
                    assert(emptied.log().pending =~= Seq::empty());
                    assert(emptied.log() == subscriber.log().drained());
                    lemma_viewers_push(kept@, emptied);
                    lemma_distinct_push(kept@, emptied);
                    assert(seen.insert(id, emptied.log()) =~= start.with_viewers(seen_next).drain(
                        id,
                    ).viewers);
                }
                kept.push(emptied);
                payloads = Some(outbox);
            } else {
                proof {
                    lemma_viewers_push(kept@, subscriber);
                    lemma_distinct_push(kept@, subscriber);
                    assert(start.with_viewers(seen).drain(id).viewers.insert(
                        subscriber.id(),
                        subscriber.log(),
                    ) =~= start.with_viewers(seen_next).drain(id).viewers);
                }
                kept.push(subscriber);
            }
        }
        assert(whole.take(whole.len() as int) =~= whole);
        self.subscribers = kept;
        assert(self@.viewers == start.drain(id).viewers);
        proof {
            lemma_apply_keeps_wf(start, HubOp::Drain(id));
        }
        payloads
    }

    /// Queues a message of a viewer behind those that wait already.
    pub fn enqueue_inbound(&mut self, message: ClientMessage)
        ensures
            final(self)@ == old(self)@.enqueue(message@),
            old(self).wf() ==> final(self).wf() && final(self)@.wf(),
    {
        self.client_messages.push(message);
        assert(self@.inbound =~= old(self)@.inbound.push(message@));
    }

    /// Takes the oldest message out of the queue. `None` means that the queue
    /// is empty; nothing waits for a message to arrive.
    pub fn receive_message(&mut self) -> (message: Option<ClientMessage>)
        ensures
            final(self)@ == old(self)@.dequeue(),
            old(self).wf() ==> final(self).wf() && final(self)@.wf(),
            match message {
                Some(m) => old(self)@.inbound.len() > 0 && m@ == old(self)@.inbound[0],
                None => old(self)@.inbound.len() == 0,
            },
    {
        if self.client_messages.len() > 0 {
            let message = self.client_messages.remove(0);
            assert(self@.inbound =~= old(self)@.inbound.drop_first());
            Some(message)
        } else {
            None
        }
    }
}

proof fn lemma_viewers_push(subscribers: Seq<Subscriber>, subscriber: Subscriber)
    ensures
        viewers_of(subscribers.push(subscriber)) == viewers_of(subscribers).insert(
            subscriber.id(),
            subscriber.log(),
        ),
{
    assert(subscribers.push(subscriber).drop_last() =~= subscribers);
}

proof fn lemma_distinct_prefix(subscribers: Seq<Subscriber>, n: int)
    requires
        distinct_ids(subscribers),
        0 <= n < subscribers.len(),
    ensures
        distinct_ids(subscribers.take(n)),
        !viewers_of(subscribers.take(n)).contains_key(subscribers[n].id()),
        subscribers.take(n + 1) == subscribers.take(n).push(subscribers[n]),
{
    let prefix = subscribers.take(n);
    assert forall|a: int, b: int| 0 <= a < b < prefix.len() implies #[trigger] prefix[a].id()
        != #[trigger] prefix[b].id() by {
        assert(subscribers[a].id() != subscribers[b].id());
    }
    lemma_viewers_of_ids(prefix);
    if viewers_of(prefix).contains_key(subscribers[n].id()) {
        let i = choose|i: int| 0 <= i < prefix.len() && #[trigger] prefix[i].id() == subscribers[n].id();
        assert(prefix[i] == subscribers[i]);
        assert(subscribers[i].id() != subscribers[n].id());
    }
    assert(subscribers.take(n + 1) =~= prefix.push(subscribers[n]));
}

proof fn lemma_distinct_push(kept: Seq<Subscriber>, subscriber: Subscriber)
    requires
        distinct_ids(kept),
        !viewers_of(kept).contains_key(subscriber.id()),
    ensures
        distinct_ids(kept.push(subscriber)),
{
    lemma_viewers_of_ids(kept);
    let grown = kept.push(subscriber);
    assert forall|a: int, b: int| 0 <= a < b < grown.len() implies #[trigger] grown[a].id()
        != #[trigger] grown[b].id() by {
        if b == kept.len() {
            assert(grown[a] == kept[a]);
            assert(viewers_of(kept).contains_key(kept[a].id()));
        } else {
            assert(kept[a].id() != kept[b].id());
        }
    }
}

proof fn lemma_viewer_count(subscribers: Seq<Subscriber>)
    requires
        distinct_ids(subscribers),
    ensures
        viewers_of(subscribers).dom().finite(),
        viewers_of(subscribers).dom().len() == subscribers.len(),
    decreases subscribers.len(),
{
    if subscribers.len() > 0 {
        let earlier = subscribers.drop_last();
        assert(distinct_ids(earlier)) by {
            assert forall|a: int, b: int| 0 <= a < b < earlier.len() implies #[trigger] earlier[a].id()
                != #[trigger] earlier[b].id() by {
                assert(subscribers[a].id() != subscribers[b].id());
            }
        }
        lemma_viewer_count(earlier);
        lemma_viewers_of_ids(earlier);
        assert(!viewers_of(earlier).contains_key(subscribers.last().id())) by {
            if viewers_of(earlier).contains_key(subscribers.last().id()) {
                let i = choose|i: int|
                    0 <= i < earlier.len() && #[trigger] earlier[i].id() == subscribers.last().id();
                assert(earlier[i] == subscribers[i]);
                assert(subscribers[i].id() != subscribers[subscribers.len() - 1].id());
            }
        }
        assert(viewers_of(subscribers).dom() =~= viewers_of(earlier).dom().insert(
            subscribers.last().id(),
        ));
    } else {
        assert(viewers_of(subscribers).dom() =~= Set::empty());
    }
}

/// Something that happens to the hub.
pub enum HubOp {
    /// A viewer connects and is greeted.
    Connect(Seq<char>),
    /// A viewer leaves.
    Disconnect(u64),
    /// A payload goes out to all viewers.
    Broadcast(Seq<char>),
    /// The relay of a viewer takes what is pending for it.
    Drain(u64),
    /// A message of a viewer arrives.
    Enqueue(Seq<char>),
    /// The oldest message is taken out of the queue.
    Dequeue,
}

impl HubState {
    /// The state after `op`.
    pub open spec fn apply(self, op: HubOp) -> HubState {
        match op {
            HubOp::Connect(greeting) => self.connect(greeting),
            HubOp::Disconnect(id) => self.disconnect(id),
            HubOp::Broadcast(payload) => self.broadcast(payload),
            HubOp::Drain(id) => self.drain(id),
            HubOp::Enqueue(message) => self.enqueue(message),
            HubOp::Dequeue => self.dequeue(),
        }
    }
}

/// The state after `ops` have happened in order, starting in `start`.
pub open spec fn hub_run(start: HubState, ops: Seq<HubOp>) -> HubState
    decreases ops.len(),
{
    if ops.len() == 0 {
        start
    } else {
        hub_run(start, ops.drop_last()).apply(ops.last())
    }
}

/// The payloads that are broadcast in the course of `ops`, in order.
pub open spec fn broadcasts(ops: Seq<HubOp>) -> Seq<Seq<char>>
    decreases ops.len(),
{
    if ops.len() == 0 {
        Seq::empty()
    } else {
        match ops.last() {
            HubOp::Broadcast(payload) => broadcasts(ops.drop_last()).push(payload),
            _ => broadcasts(ops.drop_last()),
        }
    }
}

/// Whatever happens to the hub leads from a state that it can be in to
/// another, and never takes back an id.
pub proof fn lemma_apply_keeps_wf(state: HubState, op: HubOp)
    requires
        state.wf(),
    ensures
        state.apply(op).wf(),
        state.apply(op).next_id >= state.next_id,
{
    let after = state.apply(op);
    assert forall|id: u64| #[trigger] after.viewers.contains_key(id) implies id < after.next_id
        && after.viewers[id].wf() by {
        match op {
            HubOp::Connect(greeting) => {
                if state.has_room() && id == state.next_id as u64 {
                    let log = ViewerLog::greeted(greeting);
                    assert(log.received.skip(0) =~= log.pending);
                } else {
                    assert(state.viewers.contains_key(id));
                }
            },
            HubOp::Broadcast(payload) => {
                assert(state.viewers.contains_key(id));
                let log = state.viewers[id];
                let cut = log.received.len() - log.pending.len();
                assert(log.with(payload).received.skip(cut) =~= log.received.skip(cut).push(payload));
            },
            HubOp::Drain(drained) => {
                assert(state.viewers.contains_key(id));
                if id == drained {
                    let log = state.viewers[id];
                    assert(log.received.skip(log.received.len() as int) =~= Seq::empty());
                }
            },
            _ => {
                assert(state.viewers.contains_key(id));
            },
        }
    }
}

/// Every run of the hub leads from a state that it can be in to another.
pub proof fn lemma_hub_run_keeps_wf(start: HubState, ops: Seq<HubOp>)
    requires
        start.wf(),
    ensures
        hub_run(start, ops).wf(),
        hub_run(start, ops).next_id >= start.next_id,
    decreases ops.len(),
{
    if ops.len() > 0 {
        lemma_hub_run_keeps_wf(start, ops.drop_last());
        lemma_apply_keeps_wf(hub_run(start, ops.drop_last()), ops.last());
    }
}

/// A viewer that is connected throughout receives every payload that is
/// broadcast meanwhile, each once and in the order of the broadcasts, and
/// nothing else.
pub proof fn lemma_viewer_receives_every_broadcast(start: HubState, ops: Seq<HubOp>, id: u64)
    requires
        start.wf(),
        start.connected(id),
        hub_run(start, ops).connected(id),
    ensures
        hub_run(start, ops).viewers[id].received == start.viewers[id].received + broadcasts(ops),
    decreases ops.len(),
{
    if ops.len() == 0 {
        assert(start.viewers[id].received + broadcasts(ops) =~= start.viewers[id].received);
    } else {
        let earlier = ops.drop_last();
        let before = hub_run(start, earlier);
        lemma_hub_run_keeps_wf(start, earlier);
        assert(before.connected(id)) by {
            if !before.connected(id) {
                assert(id < start.next_id);
                assert(!before.apply(ops.last()).connected(id));
            }
        }
        lemma_viewer_receives_every_broadcast(start, earlier, id);
        match ops.last() {
            HubOp::Broadcast(payload) => {
                assert(before.viewers[id].received.push(payload) =~= start.viewers[id].received
                    + broadcasts(ops));
            },
            _ => {},
        }
    }
}

/// Two viewers that are connected throughout see the same payloads in the
/// same order.
pub proof fn lemma_viewers_see_the_same(start: HubState, ops: Seq<HubOp>, a: u64, b: u64)
    requires
        start.wf(),
        start.connected(a),
        start.connected(b),
        hub_run(start, ops).connected(a),
        hub_run(start, ops).connected(b),
    ensures
        hub_run(start, ops).viewers[a].received.skip(start.viewers[a].received.len() as int)
            == broadcasts(ops),
        hub_run(start, ops).viewers[b].received.skip(start.viewers[b].received.len() as int)
            == broadcasts(ops),
{
    lemma_viewer_receives_every_broadcast(start, ops, a);
    lemma_viewer_receives_every_broadcast(start, ops, b);
    assert((start.viewers[a].received + broadcasts(ops)).skip(
        start.viewers[a].received.len() as int,
    ) =~= broadcasts(ops));
    assert((start.viewers[b].received + broadcasts(ops)).skip(
        start.viewers[b].received.len() as int,
    ) =~= broadcasts(ops));
}

/// What a relay has taken and what is still pending for it make up, in this
/// order, what its viewer received.
pub proof fn lemma_received_is_taken_then_pending(log: ViewerLog)
    requires
        log.wf(),
    ensures
        log.received == log.taken() + log.pending,
{
    assert(log.received =~= log.taken() + log.pending);
}

/// What a relay has taken grows only when it takes, and then by just what was
/// pending: nothing is taken twice, nothing is passed over, and the order
/// stays.
pub proof fn lemma_taken_grows_by_what_is_handed_out(state: HubState, op: HubOp, id: u64)
    requires
        state.wf(),
        state.connected(id),
        state.apply(op).connected(id),
    ensures
        state.apply(op).viewers[id].taken() == state.viewers[id].taken() + if op == HubOp::Drain(
            id,
        ) {
            state.viewers[id].pending
        } else {
            Seq::<Seq<char>>::empty()
        },
{
    let before = state.viewers[id];
    let after = state.apply(op).viewers[id];
    assert(before.wf());
    lemma_received_is_taken_then_pending(before);
    match op {
        HubOp::Connect(greeting) => {
            assert(id < state.next_id);
        },
        _ => {},
    }
    assert(after.taken() =~= before.taken() + if op == HubOp::Drain(id) {
        before.pending
    } else {
        Seq::<Seq<char>>::empty()
    });
}

/// Two viewers that are connected throughout, and whose relays have taken all
/// that was queued for them, have been handed the same payloads in the same
/// order: those that were broadcast meanwhile.
pub proof fn lemma_relays_are_handed_the_same(start: HubState, ops: Seq<HubOp>, a: u64, b: u64)
    requires
        start.wf(),
        start.connected(a),
        start.connected(b),
        hub_run(start, ops).connected(a),
        hub_run(start, ops).connected(b),
        hub_run(start, ops).viewers[a].pending.len() == 0,
        hub_run(start, ops).viewers[b].pending.len() == 0,
    ensures
        hub_run(start, ops).viewers[a].taken().skip(start.viewers[a].received.len() as int)
            == broadcasts(ops),
        hub_run(start, ops).viewers[b].taken().skip(start.viewers[b].received.len() as int)
            == broadcasts(ops),
{
    let end = hub_run(start, ops);
    lemma_viewers_see_the_same(start, ops, a, b);
    lemma_hub_run_keeps_wf(start, ops);
    assert(end.viewers.contains_key(a) && end.viewers.contains_key(b));
    assert(end.viewers[a].taken() =~= end.viewers[a].received);
    assert(end.viewers[b].taken() =~= end.viewers[b].received);
}

} // verus!
