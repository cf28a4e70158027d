use vstd::prelude::*;
use vstd::string::*;
use crate::clock::ClockTime;
use crate::envelope::{
    envelope_json, is_join, is_join_of, is_leave, is_leave_of, joined_text, left_text, ChatMessage,
    EnvelopeView, MessageType,
};
use crate::text::{trim_text, trimmed};

verus! {

/// Where one connection stands.
#[derive(Debug)]
pub enum SessionState {
    /// Waiting for the line that names the user.
    Authenticating,
    /// Named, subscribed, and relaying in both directions.
    Active { username: String },
    /// Finished; nothing more is done.
    Closed,
}

/// The mathematical value of a session state.
pub enum StateView {
    Authenticating,
    Active(Seq<char>),
    Closed,
}

impl View for SessionState {
    type V = StateView;

    open spec fn view(&self) -> StateView {
        match self {
            SessionState::Authenticating => StateView::Authenticating,
            SessionState::Active { username } => StateView::Active(username@),
            SessionState::Closed => StateView::Closed,
        }
    }
}

/// What happened on a connection: something read from the client, something
/// received from the bus, or a failure.
#[derive(Debug)]
pub enum SessionEvent {
    /// One complete line from the client, its delimiter included.
    LineRead(String),
    /// The client closed its side of the stream.
    EndOfStream,
    /// Reading from the client failed.
    ReadFailed,
    /// The bus handed this session an envelope.
    Delivered(ChatMessage),
    /// The bus dropped this many envelopes before this session read them.
    Lagged(u64),
    /// The bus is gone.
    BusClosed,
    /// Writing to the client failed.
    WriteFailed,
}

/// The mathematical value of an event.
pub enum EventView {
    LineRead(Seq<char>),
    EndOfStream,
    ReadFailed,
    Delivered(EnvelopeView),
    Lagged(nat),
    BusClosed,
    WriteFailed,
}

impl View for SessionEvent {
    type V = EventView;

    open spec fn view(&self) -> EventView {
        match self {
            SessionEvent::LineRead(l) => EventView::LineRead(l@),
            SessionEvent::EndOfStream => EventView::EndOfStream,
            SessionEvent::ReadFailed => EventView::ReadFailed,
            SessionEvent::Delivered(m) => EventView::Delivered(m@),
            SessionEvent::Lagged(n) => EventView::Lagged(*n as nat),
            SessionEvent::BusClosed => EventView::BusClosed,
            SessionEvent::WriteFailed => EventView::WriteFailed,
        }
    }
}

/// The event for one read of a line from the client: `None` when the read
/// failed, else the number of bytes read and the text read. Text that does
/// not end with the line delimiter was cut short by the end of the stream.
pub open spec fn read_event(read: Option<usize>, text: Seq<char>) -> EventView {
    match read {
        None => EventView::ReadFailed,
        Some(n) => if n == 0 || text.len() == 0 || text.last() != '\n' {
            EventView::EndOfStream
        } else {
            EventView::LineRead(text)
        },
    }
}

/// Turns the outcome of one line read into an event.
pub fn event_from_read(read: Option<usize>, text: String) -> (r: SessionEvent)
    ensures
        r@ == read_event(read, text@),
{
    match read {
        None => SessionEvent::ReadFailed,
        Some(n) => {
            let len = text.as_str().unicode_len();
            if n == 0 || len == 0 {
                SessionEvent::EndOfStream
            } else if text.as_str().get_char(len - 1) != '\n' {
                SessionEvent::EndOfStream
            } else {
                SessionEvent::LineRead(text)
            }
        },
    }
}

/// What the connection's driver does in answer to one event, in this order:
/// subscribe to the bus, publish an envelope, send a line to the client, and
/// release the connection and its subscription.
#[derive(Debug)]
pub struct Reaction {
    pub subscribe: bool,
    pub publish: Option<ChatMessage>,
    pub send: Option<String>,
    pub close: bool,
}

/// A session ends on end of stream or on any failure of its stream or bus.
pub open spec fn is_terminal_event(ev: EventView) -> bool {
    ||| ev is EndOfStream
    ||| ev is ReadFailed
    ||| ev is BusClosed
    ||| ev is WriteFailed
}

/// The state after event `ev`.
/// The trimmed text of a line event (empty for any other event).
pub open spec fn line_trimmed(ev: EventView) -> Seq<char> {
    match ev {
        EventView::LineRead(l) => trimmed(l),
        _ => Seq::empty(),
    }
}

/// The state after event `ev`.
pub open spec fn next_state(s: StateView, ev: EventView) -> StateView {
    next_state_given(s, ev, line_trimmed(ev))
}

/// The envelope published in answer to event `ev`, stamped `stamp`.
pub open spec fn published_on(s: StateView, ev: EventView, stamp: Seq<char>) -> Option<EnvelopeView> {
    published_on_given(s, ev, line_trimmed(ev), stamp)
}

/// The state after event `ev`, where `t` is the event's line trimmed of
/// white space.
pub open spec fn next_state_given(s: StateView, ev: EventView, t: Seq<char>) -> StateView {
    match s {
        StateView::Authenticating => match ev {
            EventView::LineRead(_) => StateView::Active(t),
            EventView::EndOfStream | EventView::ReadFailed => StateView::Closed,
            _ => s,
        },
        StateView::Active(_) => if is_terminal_event(ev) {
            StateView::Closed
        } else {
            s
        },
        StateView::Closed => s,
    }
}

/// The envelope published in answer to event `ev`, stamped `stamp`, where
/// `t` is the event's line trimmed of white space.
pub open spec fn published_on_given(s: StateView, ev: EventView, t: Seq<char>, stamp: Seq<char>) -> Option<EnvelopeView> {
    match s {
        StateView::Authenticating => match ev {
            EventView::LineRead(_) => Some(
                EnvelopeView {
                    username: t,
                    content: joined_text(),
                    timestamp: stamp,
                    kind: MessageType::SystemNotification,
                },
            ),
            _ => None,
        },
        StateView::Active(u) => match ev {
            EventView::LineRead(_) => Some(
                EnvelopeView { username: u, content: t, timestamp: stamp, kind: MessageType::UserMessage },
            ),
            _ => if is_terminal_event(ev) {
                Some(
                    EnvelopeView {
                        username: u,
                        content: left_text(),
                        timestamp: stamp,
                        kind: MessageType::SystemNotification,
                    },
                )
            } else {
                None
            },
        },
        StateView::Closed => None,
    }
}

/// Whether event `ev` makes the session subscribe to the bus.
pub open spec fn subscribes_on(s: StateView, ev: EventView) -> bool {
    s is Authenticating && ev is LineRead
}

/// Whether event `ev` ends the session.
pub open spec fn closes_on(s: StateView, ev: EventView) -> bool {
    !(s is Closed) && next_state(s, ev) is Closed
}

/// The view of an optional envelope.
pub open spec fn opt_view(m: Option<ChatMessage>) -> Option<EnvelopeView> {
    match m {
        Some(m) => Some(m@),
        None => None,
    }
}

/// The state reached, and every envelope published in order, when a fresh
/// session meets the events `evs` in order, each at its time.
pub open spec fn run(evs: Seq<(EventView, ClockTime)>) -> (StateView, Seq<EnvelopeView>)
    decreases evs.len(),
{
    if evs.len() == 0 {
        (StateView::Authenticating, Seq::empty())
    } else {
        let before = run(evs.drop_last());
        let ev = evs.last().0;
        let stamp = evs.last().1.hms();
        (
            next_state(before.0, ev),
            match published_on(before.0, ev, stamp) {
                Some(e) => before.1.push(e),
                None => before.1,
            },
        )
    }
}

/// Envelopes `lo` up to `hi` of `p` are chat lines of user `u`.
pub open spec fn user_lines(p: Seq<EnvelopeView>, u: Seq<char>, lo: int, hi: int) -> bool {
    forall|i: int| lo <= i < hi ==> (#[trigger] p[i]).kind == MessageType::UserMessage && p[i].username == u
}

/// What a session in state `s` has published so far: nothing before its
/// username arrives; then its join notice followed by its chat lines; and
/// once closed, either nothing (it never got a username) or all that,
/// followed by one leave notice.
pub open spec fn lifecycle(s: StateView, p: Seq<EnvelopeView>) -> bool {
    match s {
        StateView::Authenticating => p.len() == 0,
        StateView::Active(u) => p.len() >= 1 && is_join_of(p[0], u) && user_lines(p, u, 1, p.len() as int),
        StateView::Closed => p.len() == 0 || (p.len() >= 2 && is_join(p[0]) && is_leave_of(p.last(), p[0].username)
            && user_lines(p, p[0].username, 1, p.len() - 1)),
    }
}

/// Whatever events a session meets, what it has published follows its
/// lifecycle.
pub proof fn lemma_run_lifecycle(evs: Seq<(EventView, ClockTime)>)
    ensures
        lifecycle(run(evs).0, run(evs).1),
    decreases evs.len(),
{
    if evs.len() > 0 {
        lemma_run_lifecycle(evs.drop_last());
        let before = run(evs.drop_last());
        let after = run(evs);
        match before.0 {
            StateView::Active(u) => {
                assert(user_lines(after.1, u, 1, before.1.len() as int)) by {
                    assert forall|i: int| 1 <= i < before.1.len() implies (#[trigger] after.1[i]).kind
                        == MessageType::UserMessage && after.1[i].username == u by {
                        assert(after.1[i] == before.1[i]);
                    }
                }
            },
            _ => {},
        }
    }
}

/// A session never publishes two join notices, its join notice comes first
/// of all it publishes, and a session that got its username has published it.
pub proof fn lemma_join_first(evs: Seq<(EventView, ClockTime)>)
    ensures
        ({
            let (s, p) = run(evs);
            &&& s is Active ==> p.len() >= 1 && is_join_of(p[0], s->Active_0)
            &&& p.len() > 0 ==> is_join(p[0])
            &&& forall|i: int| 0 < i < p.len() ==> !is_join(#[trigger] p[i])
            &&& forall|i: int| 0 <= i < p.len() && (#[trigger] p[i]).kind == MessageType::UserMessage ==> i > 0
        }),
{
    lemma_run_lifecycle(evs);
    lemma_notice_texts_differ();
    let p = run(evs).1;
    assert forall|i: int| 0 < i < p.len() implies !is_join(#[trigger] p[i]) by {
        if i == p.len() - 1 && run(evs).0 is Closed {
            assert(is_leave(p[i]));
        }
    }
}

/// The join and leave notices have different texts.
proof fn lemma_notice_texts_differ()
    ensures
        joined_text() != left_text(),
{
    reveal_strlit("joined the chat!");
    reveal_strlit("left the chat!");
    assert(joined_text().len() != left_text().len());
}

/// Events met after a session closed change nothing.
pub proof fn lemma_closed_absorbs(evs: Seq<(EventView, ClockTime)>, more: Seq<(EventView, ClockTime)>)
    requires
        run(evs).0 is Closed,
    ensures
        run(evs + more) == run(evs),
    decreases more.len(),
{
    if more.len() == 0 {
        assert(evs + more =~= evs);
    } else {
        lemma_closed_absorbs(evs, more.drop_last());
        assert((evs + more).drop_last() =~= evs + more.drop_last());
    }
}

/// A session that got its username and then reaches the end of its stream
/// publishes exactly one leave notice, for its user, as its last envelope,
/// and nothing after it whatever else happens.
pub proof fn lemma_leave_once(
    evs: Seq<(EventView, ClockTime)>,
    t: ClockTime,
    more: Seq<(EventView, ClockTime)>,
)
    requires
        run(evs).0 is Active,
    ensures
        ({
            let u = run(evs).0->Active_0;
            let closed = evs.push((EventView::EndOfStream, t));
            let (s, p) = run(closed + more);
            &&& s is Closed
            &&& p == run(evs).1.push(
                EnvelopeView {
                    username: u,
                    content: left_text(),
                    timestamp: t.hms(),
                    kind: MessageType::SystemNotification,
                },
            )
            &&& is_leave_of(p.last(), u)
            &&& forall|i: int| 0 <= i < p.len() - 1 ==> !is_leave(#[trigger] p[i])
        }),
{
    let closed = evs.push((EventView::EndOfStream, t));
    assert(closed.drop_last() =~= evs);
    lemma_closed_absorbs(closed, more);
    lemma_run_lifecycle(evs);
    lemma_notice_texts_differ();
}

/// A session whose stream ends, or fails, before it sent a username
/// publishes nothing, then or ever after.
pub proof fn lemma_no_username_no_notice(
    evs: Seq<(EventView, ClockTime)>,
    ev: EventView,
    t: ClockTime,
    more: Seq<(EventView, ClockTime)>,
)
    requires
        run(evs).0 is Authenticating,
        ev is EndOfStream || ev is ReadFailed,
    ensures
        run(evs.push((ev, t)) + more).0 is Closed,
        run(evs.push((ev, t)) + more).1.len() == 0,
{
    let closed = evs.push((ev, t));
    assert(closed.drop_last() =~= evs);
    lemma_run_lifecycle(evs);
    lemma_closed_absorbs(closed, more);
}

/// One connection's protocol: the username line, then relaying lines to the
/// bus and envelopes to the client, then a leave notice.
#[derive(Debug)]
pub struct Session {
    pub state: SessionState,
}

impl View for Session {
    type V = StateView;

    open spec fn view(&self) -> StateView {
        self.state@
    }
}

impl Session {
    /// A session on a freshly accepted connection.
    pub fn new() -> (r: Session)
        ensures
            r@ == StateView::Authenticating,
    {
        Session { state: SessionState::Authenticating }
    }

    /// Whether the session has ended.
    pub fn is_closed(&self) -> (r: bool)
        ensures
            r == self@ is Closed,
    {
        match self.state {
            SessionState::Closed => true,
            _ => false,
        }
    }

    /// Handles one event at time `now` and says what to do about it.
    pub fn handle(&mut self, ev: SessionEvent, now: ClockTime) -> (r: Reaction)
        requires
            now.wf(),
        ensures
            final(self)@ == next_state(old(self)@, ev@),
            opt_view(r.publish) == published_on(old(self)@, ev@, now.hms()),
            r.subscribe == subscribes_on(old(self)@, ev@),
            r.close == closes_on(old(self)@, ev@),
            (old(self)@ is Active && ev@ is Delivered) ==> (r.send matches Some(t) && t@ == envelope_json(
                ev@->Delivered_0,
            ) + "\n"@),
            !(old(self)@ is Active && ev@ is Delivered) ==> r.send is None,
    {
        let t = match &ev {
            SessionEvent::LineRead(line) => trim_text(line.as_str()),
            _ => String::new(),
        };
        self.handle_given(ev, t.as_str(), now)
    }

    /// Handles one event at time `now`, given the event's line trimmed of
    /// white space (any text for other events).
    pub fn handle_given(&mut self, ev: SessionEvent, trimmed_line: &str, now: ClockTime) -> (r: Reaction)
        requires
            now.wf(),
        ensures
            final(self)@ == next_state_given(old(self)@, ev@, trimmed_line@),
            opt_view(r.publish) == published_on_given(old(self)@, ev@, trimmed_line@, now.hms()),
            r.subscribe == subscribes_on(old(self)@, ev@),
            r.close == (!(old(self)@ is Closed) && next_state_given(old(self)@, ev@, trimmed_line@) is Closed),
            (old(self)@ is Active && ev@ is Delivered) ==> (r.send matches Some(t) && t@ == envelope_json(
                ev@->Delivered_0,
            ) + "\n"@),
            !(old(self)@ is Active && ev@ is Delivered) ==> r.send is None,
    {
        let nothing = Reaction { subscribe: false, publish: None, send: None, close: false };
        match ev {
            SessionEvent::LineRead(_) => {
                match &self.state {
                    SessionState::Authenticating => {
                        let username = String::from_str(trimmed_line);
                        let stamp = now.to_hms();
                        let join = ChatMessage::new(
                            username.as_str(),
                            "joined the chat!",
                            stamp.as_str(),
                            MessageType::SystemNotification,
                        );
                        self.state = SessionState::Active { username };
                        Reaction { subscribe: true, publish: Some(join), send: None, close: false }
                    },
                    SessionState::Active { username } => {
                        let content = String::from_str(trimmed_line);
                        let stamp = now.to_hms();
                        let msg = ChatMessage::new(
                            username.as_str(),
                            content.as_str(),
                            stamp.as_str(),
                            MessageType::UserMessage,
                        );
                        Reaction { subscribe: false, publish: Some(msg), send: None, close: false }
                    },
                    SessionState::Closed => nothing,
                }
            },
            SessionEvent::Delivered(m) => {
                match &self.state {
                    SessionState::Active { .. } => {
                        let mut line = m.to_json();
                        line.append("\n");
                        Reaction { subscribe: false, publish: None, send: Some(line), close: false }
                    },
                    _ => nothing,
                }
            },
            SessionEvent::Lagged(_) => nothing,
            _ => {
                let terminal = match ev {
                    SessionEvent::EndOfStream | SessionEvent::ReadFailed => true,
                    _ => false,
                };
                self.end(now, terminal)
            },
        }
    }

    /// Ends the session on a failure or end of stream; `on_stream` tells
    /// whether it came from the client's stream rather than the bus or a
    /// write.
    fn end(&mut self, now: ClockTime, on_stream: bool) -> (r: Reaction)
        requires
            now.wf(),
        ensures
            old(self)@ is Authenticating ==> (final(self)@ == if on_stream {
                StateView::Closed
            } else {
                old(self)@
            }) && r.close == on_stream && r.publish is None,
            old(self)@ is Active ==> final(self)@ is Closed && r.close && opt_view(r.publish) == Some(
                EnvelopeView {
                    username: old(self)@->Active_0,
                    content: left_text(),
                    timestamp: now.hms(),
                    kind: MessageType::SystemNotification,
                },
            ),
            old(self)@ is Closed ==> final(self)@ is Closed && !r.close && r.publish is None,
            !r.subscribe,
            r.send is None,
    {
        match &self.state {
            SessionState::Authenticating => {
                if on_stream {
                    self.state = SessionState::Closed;
                }
                Reaction { subscribe: false, publish: None, send: None, close: on_stream }
            },
            SessionState::Active { username } => {
                let stamp = now.to_hms();
                let leave = ChatMessage::new(
                    username.as_str(),
                    "left the chat!",
                    stamp.as_str(),
                    MessageType::SystemNotification,
                );
                self.state = SessionState::Closed;
                Reaction { subscribe: false, publish: Some(leave), send: None, close: true }
            },
            SessionState::Closed => Reaction { subscribe: false, publish: None, send: None, close: false },
        }
    }
}

} // verus!
