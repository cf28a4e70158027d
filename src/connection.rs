use vstd::prelude::*;
use crate::bus::{BusView, FanoutBus, Received, ReceivedView};
use crate::clock::ClockTime;
use crate::envelope::envelope_json;
use crate::session::{
    closes_on, next_state, published_on, subscribes_on, EventView, Session, SessionEvent, StateView,
};

verus! {

/// The bus after a session in state `s`, holding subscription `sub`, handles
/// event `ev` stamped `stamp`: it subscribes, publishes, and releases its
/// subscription as the session asks, in that order.
pub open spec fn bus_after(v: BusView, s: StateView, ev: EventView, stamp: Seq<char>, sub: Option<usize>) -> BusView {
    let v1 = if subscribes_on(s, ev) {
        v.after_subscribe()
    } else {
        v
    };
    let v2 = match published_on(s, ev, stamp) {
        Some(e) => v1.after_publish(e),
        None => v1,
    };
    match sub {
        Some(id) => if closes_on(s, ev) {
            v2.after_unsubscribe(id as nat)
        } else {
            v2
        },
        None => v2,
    }
}

/// One accepted connection: its session and its subscription to the bus.
#[derive(Debug)]
pub struct Connection {
    pub session: Session,
    pub subscription: Option<usize>,
}

impl Connection {
    /// The connection holds a live subscription exactly while its session
    /// is active.
    pub open spec fn attached(&self, bus: BusView) -> bool {
        match self.session@ {
            StateView::Active(_) => self.subscription matches Some(id) && bus.is_subscribed(id as nat),
            _ => self.subscription is None,
        }
    }

    /// A connection that has just been accepted.
    pub fn new() -> (r: Connection)
        ensures
            r.session@ == StateView::Authenticating,
            r.subscription is None,
    {
        Connection { session: Session::new(), subscription: None }
    }

    /// Handles one event at time `now`, carrying out on `bus` what the
    /// session decides; returns the line to write to the client, if any.
    pub fn on_event(&mut self, bus: &mut FanoutBus, ev: SessionEvent, now: ClockTime) -> (r: Option<String>)
        requires
            old(bus).wf(),
            old(self).attached(old(bus)@),
            old(bus)@.published.len() < u64::MAX,
            now.wf(),
        ensures
            final(bus).wf(),
            final(self).attached(final(bus)@),
            final(self).session@ == next_state(old(self).session@, ev@),
            final(bus)@ == bus_after(old(bus)@, old(self).session@, ev@, now.hms(), old(self).subscription),
            (old(self).session@ is Active && ev@ is Delivered) ==> (r matches Some(t) && t@ == envelope_json(
                ev@->Delivered_0,
            ) + "\n"@),
            !(old(self).session@ is Active && ev@ is Delivered) ==> r is None,
    {
        let ghost s0 = self.session@;
        let ghost v0 = bus@;
        let ghost e = ev@;
        let reaction = self.session.handle(ev, now);
        if reaction.subscribe {
            let id = bus.subscribe();
            self.subscription = Some(id);
        }
        let ghost v1 = bus@;
        match reaction.publish {
            Some(m) => bus.publish(m),
            None => {},
        }
        proof {
            if let Some(id) = self.subscription {
                assert(v1.cursors[id as int] == bus@.cursors[id as int]);
            }
        }
        if reaction.close {
            match self.subscription {
                Some(id) => bus.unsubscribe(id),
                None => {},
            }
            self.subscription = None;
        }
        reaction.send
    }

    /// Takes the next thing the bus has for this connection, as an event;
    /// `None` when nothing is waiting or the connection holds no
    /// subscription.
    pub fn poll(&mut self, bus: &mut FanoutBus) -> (r: Option<SessionEvent>)
        requires
            old(bus).wf(),
            old(self).attached(old(bus)@),
        ensures
            final(bus).wf(),
            final(self).session@ == old(self).session@,
            final(self).subscription == old(self).subscription,
            final(self).attached(final(bus)@),
            match old(self).subscription {
                Some(id) => {
                    &&& final(bus)@ == old(bus)@.after_recv(id as nat)
                    &&& match old(bus)@.recv_outcome(id as nat) {
                        ReceivedView::Envelope(m) => r matches Some(ev) && ev@ == EventView::Delivered(m),
                        ReceivedView::Lagged(n) => r matches Some(ev) && ev@ == EventView::Lagged(n),
                        ReceivedView::Empty => r is None,
                    }
                },
                None => final(bus)@ == old(bus)@ && r is None,
            },
    {
        match self.subscription {
            Some(id) => match bus.receive(id) {
                Received::Envelope(m) => Some(SessionEvent::Delivered(m)),
                Received::Lagged(n) => Some(SessionEvent::Lagged(n)),
                Received::Empty => None,
            },
            None => None,
        }
    }
}

} // verus!
