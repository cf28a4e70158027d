use vstd::prelude::*;
use crate::envelope::{ChatMessage, EnvelopeView};

verus! {

/// The number of envelopes the server's bus retains.
pub const DEFAULT_CAPACITY: usize = 100;

/// What one receive on a subscription hands back.
#[derive(Debug)]
pub enum Received {
    /// The next envelope for this subscriber.
    Envelope(ChatMessage),
    /// The subscriber fell behind: this many envelopes were dropped before it
    /// read them. Its position moved to the oldest retained envelope.
    Lagged(u64),
    /// Nothing was published since the last receive.
    Empty,
}

/// The mathematical value of a receive outcome.
pub enum ReceivedView {
    Envelope(EnvelopeView),
    Lagged(nat),
    Empty,
}

impl View for Received {
    type V = ReceivedView;

    open spec fn view(&self) -> ReceivedView {
        match self {
            Received::Envelope(m) => ReceivedView::Envelope(m@),
            Received::Lagged(n) => ReceivedView::Lagged(*n as nat),
            Received::Empty => ReceivedView::Empty,
        }
    }
}

/// The mathematical value of a bus: every envelope ever published, in
/// publish order; the number it retains; and, for each subscription handle
/// ever given out, the sequence number of the next envelope it will read
/// (`None` once the handle was released).
pub struct BusView {
    pub published: Seq<EnvelopeView>,
    pub capacity: nat,
    pub cursors: Seq<Option<u64>>,
}

impl BusView {
    /// Sequence number of the oldest envelope still retained.
    pub open spec fn oldest(self) -> nat {
        if self.published.len() > self.capacity {
            (self.published.len() - self.capacity) as nat
        } else {
            0
        }
    }

    /// The envelopes still retained, oldest first.
    pub open spec fn retained(self) -> Seq<EnvelopeView> {
        self.published.subrange(self.oldest() as int, self.published.len() as int)
    }

    pub open spec fn is_subscribed(self, id: nat) -> bool {
        id < self.cursors.len() && self.cursors[id as int] is Some
    }

    /// The next sequence number that subscription `id` reads.
    pub open spec fn cursor(self, id: nat) -> nat {
        self.cursors[id as int]->Some_0 as nat
    }

    /// Subscription `id` missed envelopes that are no longer retained.
    pub open spec fn is_lagging(self, id: nat) -> bool {
        self.cursor(id) < self.oldest()
    }

    /// The envelopes that subscription `id` has yet to read.
    pub open spec fn pending(self, id: nat) -> Seq<EnvelopeView> {
        self.published.subrange(self.cursor(id) as int, self.published.len() as int)
    }

    /// The bus after `e` is published.
    pub open spec fn after_publish(self, e: EnvelopeView) -> BusView {
        BusView { published: self.published.push(e), ..self }
    }

    /// The handle that a new subscription gets: the first released one, or
    /// a fresh one when none was released.
    pub open spec fn free_slot(self) -> nat {
        first_free(self.cursors, 0)
    }

    /// The bus after a new subscription is made.
    pub open spec fn after_subscribe(self) -> BusView {
        let id = self.free_slot();
        let c = Some(self.published.len() as u64);
        BusView {
            cursors: if id < self.cursors.len() {
                self.cursors.update(id as int, c)
            } else {
                self.cursors.push(c)
            },
            ..self
        }
    }

    /// The bus after subscription `id` is released.
    pub open spec fn after_unsubscribe(self, id: nat) -> BusView {
        BusView { cursors: self.cursors.update(id as int, None), ..self }
    }

    /// What a receive on subscription `id` returns.
    pub open spec fn recv_outcome(self, id: nat) -> ReceivedView {
        let c = self.cursor(id);
        if c < self.oldest() {
            ReceivedView::Lagged((self.oldest() - c) as nat)
        } else if c < self.published.len() {
            ReceivedView::Envelope(self.published[c as int])
        } else {
            ReceivedView::Empty
        }
    }

    /// The bus after a receive on subscription `id`.
    pub open spec fn after_recv(self, id: nat) -> BusView {
        let c = self.cursor(id);
        if c < self.oldest() {
            BusView { cursors: self.cursors.update(id as int, Some(self.oldest() as u64)), ..self }
        } else if c < self.published.len() {
            BusView { cursors: self.cursors.update(id as int, Some((c + 1) as u64)), ..self }
        } else {
            self
        }
    }

    /// The outcomes of `k` receives in a row on subscription `id`.
    pub open spec fn drain(self, id: nat, k: nat) -> Seq<ReceivedView>
        decreases k,
    {
        if k == 0 {
            Seq::empty()
        } else {
            seq![self.recv_outcome(id)] + self.after_recv(id).drain(id, (k - 1) as nat)
        }
    }

    /// The bus after `k` receives in a row on subscription `id`.
    pub open spec fn drained(self, id: nat, k: nat) -> BusView
        decreases k,
    {
        if k == 0 {
            self
        } else {
            self.after_recv(id).drained(id, (k - 1) as nat)
        }
    }

    /// The bus after each envelope of `es` is published, in order.
    pub open spec fn after_publish_all(self, es: Seq<EnvelopeView>) -> BusView
        decreases es.len(),
    {
        if es.len() == 0 {
            self
        } else {
            self.after_publish_all(es.drop_last()).after_publish(es.last())
        }
    }

    /// Every position held by a subscription lies within what was published.
    pub open spec fn valid(self) -> bool {
        &&& self.capacity > 0
        &&& self.published.len() <= u64::MAX
        &&& forall|i: int|
            0 <= i < self.cursors.len() && (#[trigger] self.cursors[i]) is Some
                ==> self.cursors[i]->Some_0 <= self.published.len()
    }
}

/// The first released handle at or after `i`, or the number of handles when
/// none is released.
pub open spec fn first_free(c: Seq<Option<u64>>, i: nat) -> nat
    decreases c.len() - i,
{
    if i >= c.len() {
        c.len()
    } else if c[i as int] is None {
        i
    } else {
        first_free(c, i + 1)
    }
}

/// The first released handle lies at or after where the search starts, and
/// is released unless it is a fresh one.
pub proof fn lemma_first_free(c: Seq<Option<u64>>, i: nat)
    requires
        i <= c.len(),
    ensures
        i <= first_free(c, i) <= c.len(),
        first_free(c, i) < c.len() ==> c[first_free(c, i) as int] is None,
    decreases c.len() - i,
{
    if i < c.len() && c[i as int] is Some {
        lemma_first_free(c, i + 1);
    }
}

/// A new subscription keeps the bus valid, and its handle is live.
pub proof fn lemma_subscribe_valid(v: BusView)
    requires
        v.valid(),
    ensures
        v.after_subscribe().valid(),
        v.after_subscribe().is_subscribed(v.free_slot()),
        v.after_subscribe().cursor(v.free_slot()) == v.published.len(),
{
    lemma_first_free(v.cursors, 0);
    let u = v.after_subscribe();
    assert forall|i: int| 0 <= i < u.cursors.len() && (#[trigger] u.cursors[i]) is Some implies u.cursors[i]->Some_0
        <= u.published.len() by {
        if i < v.cursors.len() && i != v.free_slot() {
            assert(u.cursors[i] == v.cursors[i]);
        }
    }
}

/// The outcomes that hand each of `es` out as an envelope, in order.
pub open spec fn delivered(es: Seq<EnvelopeView>) -> Seq<ReceivedView> {
    es.map_values(|e: EnvelopeView| ReceivedView::Envelope(e))
}

/// A subscription that has not fallen behind reads, in as many receives as
/// it has envelopes pending, exactly those envelopes, unchanged and in
/// publish order, and then finds nothing more.
pub proof fn lemma_drain_pending(v: BusView, id: nat)
    requires
        v.valid(),
        v.is_subscribed(id),
        !v.is_lagging(id),
    ensures
        v.drain(id, v.pending(id).len()) == delivered(v.pending(id)),
        v.drained(id, v.pending(id).len()).recv_outcome(id) == ReceivedView::Empty,
        v.drained(id, v.pending(id).len()).published == v.published,
    decreases v.pending(id).len(),
{
    let k = v.pending(id).len();
    if k == 0 {
        assert(v.drain(id, 0) =~= delivered(v.pending(id)));
    } else {
        let c = v.cursor(id);
        let w = v.after_recv(id);
        assert(w.cursors[id as int] == Some((c + 1) as u64));
        assert forall|i: int| 0 <= i < w.cursors.len() && (#[trigger] w.cursors[i]) is Some implies w.cursors[i]->Some_0
            <= w.published.len() by {
            if i != id {
                assert(v.cursors[i] == w.cursors[i]);
            }
        }
        assert(w.pending(id) =~= v.pending(id).drop_first());
        lemma_drain_pending(w, id);
        assert(v.drain(id, k) =~= delivered(v.pending(id)));
    }
}

/// Every subscription open when an envelope is published, and not behind by
/// a full buffer, reads that envelope exactly once, unchanged, after all it
/// had pending before, and nothing after it.
pub proof fn lemma_fanout(v: BusView, id: nat, e: EnvelopeView)
    requires
        v.valid(),
        v.published.len() < u64::MAX,
        v.is_subscribed(id),
        v.pending(id).len() < v.capacity,
    ensures
        ({
            let w = v.after_publish(e);
            let k = w.pending(id).len();
            &&& w.pending(id) == v.pending(id).push(e)
            &&& w.drain(id, k) == delivered(v.pending(id).push(e))
            &&& w.drained(id, k).recv_outcome(id) == ReceivedView::Empty
        }),
{
    let w = v.after_publish(e);
    assert(w.pending(id) =~= v.pending(id).push(e));
    lemma_drain_pending(w, id);
}

/// A subscription opened before an envelope is published reads that very
/// envelope back: a publisher sees its own envelopes.
pub proof fn lemma_self_delivery(v: BusView, e: EnvelopeView)
    requires
        v.valid(),
        v.published.len() < u64::MAX,
    ensures
        ({
            let id = v.free_slot();
            let w = v.after_subscribe().after_publish(e);
            &&& w.drain(id, 1) == seq![ReceivedView::Envelope(e)]
            &&& w.drained(id, 1).recv_outcome(id) == ReceivedView::Empty
        }),
{
    let id = v.free_slot();
    let u = v.after_subscribe();
    lemma_subscribe_valid(v);
    assert(u.pending(id).len() == 0);
    lemma_fanout(u, id, e);
    assert(delivered(u.pending(id).push(e)) =~= seq![ReceivedView::Envelope(e)]);
}

/// The bus never holds more than its capacity; a subscription that stops
/// reading while more envelopes than that are published is told it lagged,
/// by how many, and then reads on from the oldest envelope still retained.
pub proof fn lemma_lag_then_resume(v: BusView, id: nat, es: Seq<EnvelopeView>)
    requires
        v.valid(),
        v.published.len() + es.len() <= u64::MAX,
        v.is_subscribed(id),
        v.pending(id).len() + es.len() > v.capacity,
    ensures
        ({
            let w = v.after_publish_all(es);
            let z = w.after_recv(id);
            &&& w.retained().len() == v.capacity
            &&& w.is_lagging(id)
            &&& w.recv_outcome(id) == ReceivedView::Lagged((w.oldest() - v.cursor(id)) as nat)
            &&& z.cursor(id) == w.oldest()
            &&& z.recv_outcome(id) == ReceivedView::Envelope(w.published[w.oldest() as int])
            &&& z.pending(id) == w.retained()
        }),
{
    lemma_publish_all(v, es);
    let w = v.after_publish_all(es);
    let z = w.after_recv(id);
    assert(w.cursors == v.cursors);
    assert(z.pending(id) =~= w.retained());
}

/// Publishing a run of envelopes appends them and moves no subscription.
pub proof fn lemma_publish_all(v: BusView, es: Seq<EnvelopeView>)
    requires
        v.valid(),
        v.published.len() + es.len() <= u64::MAX,
    ensures
        v.after_publish_all(es).valid(),
        v.after_publish_all(es).published == v.published + es,
        v.after_publish_all(es).cursors == v.cursors,
        v.after_publish_all(es).capacity == v.capacity,
    decreases es.len(),
{
    if es.len() > 0 {
        lemma_publish_all(v, es.drop_last());
        assert(v.published + es =~= (v.published + es.drop_last()).push(es.last()));
    } else {
        assert(v.published + es =~= v.published);
    }
}

/// A bounded fan-out queue: every envelope published reaches each current
/// subscription once, in publish order, unless that subscription fell more
/// than `capacity` envelopes behind, in which case the oldest are dropped and
/// the subscription is told how many it missed.
pub struct FanoutBus {
    buffer: Vec<ChatMessage>,
    base: u64,
    capacity: usize,
    cursors: Vec<Option<u64>>,
    published: Ghost<Seq<EnvelopeView>>,
}

impl View for FanoutBus {
    type V = BusView;

    closed spec fn view(&self) -> BusView {
        BusView { published: self.published@, capacity: self.capacity as nat, cursors: self.cursors@ }
    }
}

impl FanoutBus {
    pub closed spec fn wf(&self) -> bool {
        &&& self@.valid()
        &&& self.base as nat == self@.oldest()
        &&& self.buffer@.len() + self.base == self.published@.len()
        &&& forall|i: int|
            0 <= i < self.buffer@.len() ==> (#[trigger] self.buffer@[i])@ == self.published@[self.base + i]
    }

    /// An empty bus that retains up to `capacity` envelopes.
    pub fn new(capacity: usize) -> (r: FanoutBus)
        requires
            capacity > 0,
        ensures
            r.wf(),
            r@ == (BusView { published: Seq::empty(), capacity: capacity as nat, cursors: Seq::empty() }),
    {
        FanoutBus {
            buffer: Vec::new(),
            base: 0,
            capacity,
            cursors: Vec::new(),
            published: Ghost(Seq::empty()),
        }
    }

    /// The number of envelopes published so far.
    pub fn published_count(&self) -> (r: u64)
        requires
            self.wf(),
        ensures
            r == self@.published.len(),
    {
        self.base + self.buffer.len() as u64
    }

    /// The number of envelopes held in memory.
    pub fn retained_count(&self) -> (r: usize)
        requires
            self.wf(),
        ensures
            r == self@.retained().len(),
            r <= self@.capacity,
    {
        self.buffer.len()
    }

    /// Whether handle `id` is a live subscription.
    pub fn is_subscribed(&self, id: usize) -> (r: bool)
        ensures
            r == self@.is_subscribed(id as nat),
    {
        id < self.cursors.len() && self.cursors[id].is_some()
    }

    /// Opens a subscription that reads every envelope published from now on;
    /// a handle released earlier is given out again.
    pub fn subscribe(&mut self) -> (id: usize)
        requires
            old(self).wf(),
        ensures
            final(self).wf(),
            final(self)@ == old(self)@.after_subscribe(),
            id == old(self)@.free_slot(),
            final(self)@.is_subscribed(id as nat),
    {
        proof {
            lemma_subscribe_valid(self@);
        }
        let next = self.base + self.buffer.len() as u64;
        let mut i: usize = 0;
        while i < self.cursors.len()
            invariant
                self.wf(),
                self@ == old(self)@,
                self.base == old(self).base,
                self.buffer@ == old(self).buffer@,
                next as nat == self@.published.len(),
                i <= self.cursors@.len(),
                first_free(self.cursors@, 0) == first_free(self.cursors@, i as nat),
            decreases self.cursors@.len() - i,
        {
            let free = match self.cursors[i] {
                Some(_) => false,
                None => true,
            };
            if free {
                assert(first_free(self.cursors@, i as nat) == i);
                self.cursors.set(i, Some(next));
                assert(self@ =~= old(self)@.after_subscribe());
                return i;
            }
            i = i + 1;
        }
        let id = self.cursors.len();
        self.cursors.push(Some(next));
        assert(self@ =~= old(self)@.after_subscribe());
        id
    }

    /// Releases subscription `id`.
    pub fn unsubscribe(&mut self, id: usize)
        requires
            old(self).wf(),
            id < old(self)@.cursors.len(),
        ensures
            final(self).wf(),
            final(self)@ == old(self)@.after_unsubscribe(id as nat),
    {
        self.cursors.set(id, None);
    }

    /// Publishes `m` to every current subscription, without waiting on any
    /// of them; when the buffer is full the oldest envelope is dropped.
    pub fn publish(&mut self, m: ChatMessage)
        requires
            old(self).wf(),
            old(self)@.published.len() < u64::MAX,
        ensures
            final(self).wf(),
            final(self)@ == old(self)@.after_publish(m@),
    {
        let ghost e = m@;
        if self.buffer.len() == self.capacity {
            self.buffer.remove(0);
            self.base = self.base + 1;
        }
        self.buffer.push(m);
        self.published = Ghost(self.published@.push(e));
        assert(self@ =~= old(self)@.after_publish(e));
        assert forall|i: int| 0 <= i < self.buffer@.len() implies (#[trigger] self.buffer@[i])@
            == self.published@[self.base + i] by {
            if i < self.buffer@.len() - 1 {
                assert(self.published@[self.base + i] == old(self).published@[self.base + i]);
            }
        }
    }

    /// Takes the next envelope for subscription `id`, or reports that some
    /// were dropped before it read them, or that none is waiting.
    pub fn receive(&mut self, id: usize) -> (r: Received)
        requires
            old(self).wf(),
            old(self)@.is_subscribed(id as nat),
        ensures
            final(self).wf(),
            final(self)@ == old(self)@.after_recv(id as nat),
            r@ == old(self)@.recv_outcome(id as nat),
    {
        let c = match self.cursors[id] {
            Some(c) => c,
            None => 0,
        };
        if c < self.base {
            let missed = self.base - c;
            self.cursors.set(id, Some(self.base));
            assert(self@ =~= old(self)@.after_recv(id as nat));
            Received::Lagged(missed)
        } else {
            let k = c - self.base;
            if k < self.buffer.len() as u64 {
                let m = self.buffer[k as usize].duplicate();
                self.cursors.set(id, Some(c + 1));
                assert(self@ =~= old(self)@.after_recv(id as nat));
                Received::Envelope(m)
            } else {
                Received::Empty
            }
        }
    }
}

} // verus!
