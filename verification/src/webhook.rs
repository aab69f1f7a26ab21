//! Webhook envelopes and the in-process broadcast bridge.
//!
//! A [`WebhookMessage`] is one inbound delivery: endpoint path, the raw body
//! bytes the signature was computed over, and the header map (lower-cased
//! names, unique keys). The [`WebhookBridge`] fans messages out to any
//! number of listeners; each listener is an independent cursor that starts
//! at the moment it attaches, sees messages in publish order, and observes
//! an explicit lag signal instead of silent loss when it falls more than
//! the bridge's capacity behind.

use vstd::prelude::*;
use crate::sig::str_eq_late;

verus! {

/// The ghost shape of a webhook message.
pub struct WebhookMessageView {
    pub endpoint: Seq<char>,
    pub body: Seq<u8>,
    pub headers: Seq<(Seq<char>, Seq<char>)>,
}

/// The value of the first header named `name`, if any.
pub open spec fn spec_header_lookup(
    headers: Seq<(Seq<char>, Seq<char>)>,
    name: Seq<char>,
) -> Option<Seq<char>>
    decreases headers.len(),
{
    if headers.len() == 0 {
        None
    } else if headers.first().0 == name {
        Some(headers.first().1)
    } else {
        spec_header_lookup(headers.drop_first(), name)
    }
}

/// One inbound webhook delivery, independent of provider.
pub struct WebhookMessage {
    /// Request path the delivery arrived on.
    pub endpoint: String,
    /// Raw body bytes, exactly as received: signatures are computed over
    /// these bytes and they are never rewritten.
    pub body: Vec<u8>,
    /// Header names (lower-cased, unique) and values.
    pub headers: Vec<(String, String)>,
}

impl View for WebhookMessage {
    type V = WebhookMessageView;

    open spec fn view(&self) -> WebhookMessageView {
        WebhookMessageView {
            endpoint: self.endpoint@,
            body: self.body@,
            headers: Seq::new(
                self.headers@.len(),
                |i: int| (self.headers@[i].0@, self.headers@[i].1@),
            ),
        }
    }
}

impl WebhookMessage {
    /// The value of the first header named `name`, if any.
    pub fn header(&self, name: &str) -> (r: Option<&String>)
        ensures
            match r {
                Some(v) => spec_header_lookup(self@.headers, name@) == Some(v@),
                None => spec_header_lookup(self@.headers, name@) is None,
            },
    {
        let n = self.headers.len();
        proof {
            assert(self@.headers.skip(0) =~= self@.headers);
        }
        for i in 0..n
            invariant
                n == self.headers@.len(),
                spec_header_lookup(self@.headers, name@) == spec_header_lookup(
                    self@.headers.skip(i as int),
                    name@,
                ),
        {
            proof {
                assert(self@.headers.skip(i as int).first() == self@.headers[i as int]);
            }
            if str_eq_late(self.headers[i].0.as_str(), name) {
                return Some(&self.headers[i].1);
            }
            proof {
                assert(self@.headers.skip(i as int).drop_first() =~= self@.headers.skip(
                    i as int + 1,
                ));
            }
        }
        proof {
            assert(self@.headers.skip(n as int) =~= Seq::<(Seq<char>, Seq<char>)>::empty());
        }
        None
    }
}

impl Clone for WebhookMessage {
    fn clone(&self) -> (r: Self)
        ensures
            r@ == self@,
    {
        let mut headers: Vec<(String, String)> = Vec::new();
        let n = self.headers.len();
        for i in 0..n
            invariant
                n == self.headers@.len(),
                headers@.len() == i,
                forall|j: int|
                    0 <= j < i ==> headers@[j].0@ == self.headers@[j].0@ && headers@[j].1@
                        == self.headers@[j].1@,
        {
            headers.push((self.headers[i].0.clone(), self.headers[i].1.clone()));
        }
        let r = WebhookMessage {
            endpoint: self.endpoint.clone(),
            body: vstd::slice::slice_to_vec(self.body.as_slice()),
            headers,
        };
        proof {
            assert(r@.headers =~~= self@.headers);
            assert(r@ =~~= self@);
        }
        r
    }
}

/// How many pending messages the bridge keeps per slow listener before it
/// starts dropping the oldest.
pub const BRIDGE_CAPACITY: usize = 100;

/// The ghost state of a bridge: its capacity, how many messages were ever
/// published, and the window of recent messages still available.
pub struct BridgeModel {
    pub capacity: nat,
    pub published: nat,
    pub buffer: Seq<WebhookMessageView>,
}

impl BridgeModel {
    pub open spec fn wf(self) -> bool {
        0 < self.capacity && self.buffer.len() == if self.published <= self.capacity {
            self.published
        } else {
            self.capacity
        }
    }
}

/// One publish: the message enters the window; the oldest message leaves
/// once the window is full.
pub open spec fn spec_publish(m: BridgeModel, msg: WebhookMessageView) -> BridgeModel {
    BridgeModel {
        capacity: m.capacity,
        published: m.published + 1,
        buffer: if m.buffer.len() < m.capacity {
            m.buffer.push(msg)
        } else {
            m.buffer.drop_first().push(msg)
        },
    }
}

pub open spec fn spec_publish_all(m: BridgeModel, msgs: Seq<WebhookMessageView>) -> BridgeModel
    decreases msgs.len(),
{
    if msgs.len() == 0 {
        m
    } else {
        spec_publish_all(spec_publish(m, msgs.first()), msgs.drop_first())
    }
}

/// What one receive at cursor `next` yields, and where the cursor moves.
pub enum RecvModel {
    Empty,
    Lagged { missed: nat, next: nat },
    Message { msg: WebhookMessageView, next: nat },
}

pub open spec fn spec_recv(m: BridgeModel, next: nat) -> RecvModel
    recommends
        next <= m.published,
{
    let avail = m.published - next;
    if avail == 0 {
        RecvModel::Empty
    } else if avail > m.buffer.len() {
        RecvModel::Lagged {
            missed: (avail - m.buffer.len()) as nat,
            next: (m.published - m.buffer.len()) as nat,
        }
    } else {
        RecvModel::Message { msg: m.buffer[m.buffer.len() - avail], next: (next + 1) as nat }
    }
}

/// Fan-out point for webhook messages: one writer side, any number of
/// listener cursors. A fixed-size window of recent messages is kept, so a
/// publish never waits for listeners; a listener that falls behind the
/// window sees a [`RecvOutcome::Lagged`] signal instead of silently losing
/// messages.
pub struct WebhookBridge {
    capacity: usize,
    published: usize,
    buffer: Vec<WebhookMessage>,
}

/// An independent cursor into the bridge's stream, starting at the moment
/// [`WebhookBridge::listen`] was called.
pub struct WebhookListener {
    next: usize,
}

impl WebhookListener {
    pub closed spec fn spec_next(&self) -> int {
        self.next as int
    }
}

/// What one receive yields.
pub enum RecvOutcome {
    /// Nothing published since the cursor position.
    Empty,
    /// The listener fell behind and `missed` messages were dropped for it;
    /// the cursor moved to the oldest message still available.
    Lagged { missed: usize },
    /// The next message, in publish order.
    Message(WebhookMessage),
}

impl WebhookBridge {
    pub closed spec fn model(&self) -> BridgeModel {
        BridgeModel {
            capacity: self.capacity as nat,
            published: self.published as nat,
            buffer: Seq::new(self.buffer@.len(), |i: int| self.buffer@[i]@),
        }
    }

    pub open spec fn wf(&self) -> bool {
        self.model().wf()
    }

    /// A bridge with the default capacity.
    pub fn new() -> (r: Self)
        ensures
            r.wf(),
            r.model().published == 0,
            r.model().capacity == BRIDGE_CAPACITY,
    {
        WebhookBridge { capacity: BRIDGE_CAPACITY, published: 0, buffer: Vec::new() }
    }

    /// A bridge keeping a window of `capacity` messages per slow listener.
    pub fn with_capacity(capacity: usize) -> (r: Self)
        requires
            0 < capacity,
        ensures
            r.wf(),
            r.model().published == 0,
            r.model().capacity == capacity,
    {
        WebhookBridge { capacity, published: 0, buffer: Vec::new() }
    }

    /// Publish one message. Never waits: listeners that cannot keep up lose
    /// the oldest messages and are told so on their next receive.
    pub fn send(&mut self, message: WebhookMessage)
        requires
            old(self).wf(),
            old(self).model().published < usize::MAX,
        ensures
            final(self).wf(),
            final(self).model() == spec_publish(old(self).model(), message@),
    {
        if self.buffer.len() == self.capacity {
            self.buffer.remove(0);
            proof {
                assert(self.buffer@ =~= old(self).buffer@.drop_first());
            }
        }
        self.buffer.push(message);
        self.published = self.published + 1;
        proof {
            assert(self.model().buffer =~~= spec_publish(old(self).model(), message@).buffer);
            assert(self.model() =~~= spec_publish(old(self).model(), message@));
        }
    }

    /// Attach a new listener; it sees only messages published after this
    /// call.
    pub fn listen(&self) -> (r: WebhookListener)
        ensures
            r.spec_next() == self.model().published,
    {
        WebhookListener { next: self.published }
    }

    /// Hand the listener the next message, in publish order, or tell it
    /// that it is up to date or that it lagged.
    pub fn recv(&self, listener: &mut WebhookListener) -> (r: RecvOutcome)
        requires
            self.wf(),
            old(listener).spec_next() <= self.model().published,
        ensures
            final(listener).spec_next() <= self.model().published,
            match spec_recv(self.model(), old(listener).spec_next() as nat) {
                RecvModel::Empty => r is Empty && final(listener).spec_next() == old(
                    listener,
                ).spec_next(),
                RecvModel::Lagged { missed, next } => {
                    &&& r matches RecvOutcome::Lagged { missed: got } && got == missed
                    &&& final(listener).spec_next() == next
                },
                RecvModel::Message { msg, next } => {
                    &&& r matches RecvOutcome::Message(got) && got@ == msg
                    &&& final(listener).spec_next() == next
                },
            },
    {
        let avail = self.published - listener.next;
        if avail == 0 {
            RecvOutcome::Empty
        } else if avail > self.buffer.len() {
            let missed = avail - self.buffer.len();
            listener.next = self.published - self.buffer.len();
            RecvOutcome::Lagged { missed }
        } else {
            let idx = self.buffer.len() - avail;
            let m = self.buffer[idx].clone();
            listener.next = listener.next + 1;
            RecvOutcome::Message(m)
        }
    }
}

impl Default for WebhookBridge {
    fn default() -> (r: Self)
        ensures
            r.wf(),
            r.model().published == 0,
            r.model().capacity == BRIDGE_CAPACITY,
    {
        WebhookBridge::new()
    }
}

/// No replay: a listener that attaches now has nothing to receive, however
/// many messages were published before it attached.
pub proof fn lemma_no_replay(m: BridgeModel)
    requires
        m.wf(),
    ensures
        spec_recv(m, m.published) == RecvModel::Empty,
{
}

/// After a batch of publishes, the published count grew by the batch and
/// the capacity is unchanged; the bridge stays well formed.
pub proof fn lemma_publish_all_counts(m0: BridgeModel, msgs: Seq<WebhookMessageView>)
    requires
        m0.wf(),
    ensures
        spec_publish_all(m0, msgs).wf(),
        spec_publish_all(m0, msgs).capacity == m0.capacity,
        spec_publish_all(m0, msgs).published == m0.published + msgs.len(),
    decreases msgs.len(),
{
    if msgs.len() > 0 {
        lemma_publish_all_counts(spec_publish(m0, msgs.first()), msgs.drop_first());
    }
}

/// The window after a batch of publishes: the most recent messages of
/// `old window + batch`, as many as fit.
pub proof fn lemma_publish_all_buffer(m0: BridgeModel, msgs: Seq<WebhookMessageView>)
    requires
        m0.wf(),
    ensures
        ({
            let m1 = spec_publish_all(m0, msgs);
            let total = m0.buffer + msgs;
            m1.buffer =~= total.skip(total.len() - m1.buffer.len())
        }),
    decreases msgs.len(),
{
    lemma_publish_all_counts(m0, msgs);
    if msgs.len() == 0 {
        assert((m0.buffer + msgs) =~= m0.buffer);
    } else {
        let m = spec_publish(m0, msgs.first());
        lemma_publish_all_buffer(m, msgs.drop_first());
        let m1 = spec_publish_all(m0, msgs);
        let total0 = m0.buffer + msgs;
        let total1 = m.buffer + msgs.drop_first();
        assert(m.buffer =~= (m0.buffer + seq![msgs.first()]).skip(
            m0.buffer.len() + 1 - m.buffer.len(),
        ));
        assert(total1 =~= total0.skip(m0.buffer.len() + 1 - m.buffer.len()));
        assert(m1.buffer =~= total0.skip(total0.len() - m1.buffer.len()));
    }
}

/// Round trip, the delivery half: a listener attaches (cursor at the count
/// published so far), then the messages in `msgs` are published, no more
/// than the capacity of the window. After the listener has received `k` of
/// them, its next receive yields exactly `msgs[k]` — every message arrives,
/// in publish order, with no loss and no lag signal.
pub proof fn lemma_round_trip(m0: BridgeModel, msgs: Seq<WebhookMessageView>, k: int)
    requires
        m0.wf(),
        msgs.len() <= m0.capacity,
        0 <= k < msgs.len(),
    ensures
        spec_recv(spec_publish_all(m0, msgs), (m0.published + k) as nat) == (RecvModel::Message {
            msg: msgs[k],
            next: (m0.published + k + 1) as nat,
        }),
{
    lemma_publish_all_counts(m0, msgs);
    lemma_publish_all_buffer(m0, msgs);
}

} // verus!

