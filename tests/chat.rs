use retro_chat::bus::{FanoutBus, Received, DEFAULT_CAPACITY};
use retro_chat::client::{classify_input, classify_trimmed, header, line_of, render, ClientInput, HELP_TEXT};
use retro_chat::clock::ClockTime;
use retro_chat::connection::Connection;
use retro_chat::envelope::{assemble_json, ChatMessage, MessageType};
use retro_chat::session::{event_from_read, Session, SessionEvent, SessionState};

fn noon() -> ClockTime {
    ClockTime { hour: 12, minute: 0, second: 5 }
}

fn msg(user: &str, content: &str) -> ChatMessage {
    ChatMessage::new(user, content, "12:00:05", MessageType::UserMessage)
}

fn line(s: &str) -> SessionEvent {
    SessionEvent::LineRead(s.to_string())
}

fn expect_envelope(r: Received) -> ChatMessage {
    match r {
        Received::Envelope(m) => m,
        other => panic!("expected an envelope, got {:?}", other),
    }
}

#[test]
fn clock_from_seconds_splits_fields() {
    let t = ClockTime::from_seconds(3661);
    assert_eq!(t, ClockTime { hour: 1, minute: 1, second: 1 });
    assert_eq!(t.to_hms(), "01:01:01");
    let last = ClockTime::from_seconds(86399);
    assert_eq!(last.to_hms(), "23:59:59");
    assert_eq!(ClockTime::from_seconds(0).to_hms(), "00:00:00");
}

#[test]
fn clock_now_is_a_time_of_day() {
    let t = ClockTime::now();
    assert!(t.hour < 24 && t.minute < 60 && t.second < 60);
    assert_eq!(t.to_hms().len(), 8);
}

#[test]
fn envelope_json_matches_wire_form() {
    let m = msg("alice", "hello");
    assert_eq!(
        m.to_json(),
        r#"{"username":"alice","content":"hello","timestamp":"12:00:05","message_type":"UserMessage"}"#
    );
    let n = ChatMessage::new("bob", "joined the chat!", "09:08:07", MessageType::SystemNotification);
    assert_eq!(
        n.to_json(),
        r#"{"username":"bob","content":"joined the chat!","timestamp":"09:08:07","message_type":"SystemNotification"}"#
    );
}

#[test]
fn envelope_json_escapes_text() {
    let m = msg("a\"b", "line\\one\ttab");
    assert_eq!(
        m.to_json(),
        r#"{"username":"a\"b","content":"line\\one\ttab","timestamp":"12:00:05","message_type":"UserMessage"}"#
    );
}

#[test]
fn assemble_json_places_literals() {
    let s = assemble_json("\"u\"", "\"c\"", "\"t\"", MessageType::UserMessage);
    assert_eq!(s, r#"{"username":"u","content":"c","timestamp":"t","message_type":"UserMessage"}"#);
}

#[test]
fn duplicate_keeps_fields() {
    let m = msg("alice", "hi");
    let d = m.duplicate();
    assert_eq!(d.username, "alice");
    assert_eq!(d.content, "hi");
    assert_eq!(d.timestamp, "12:00:05");
    assert_eq!(d.message_type, MessageType::UserMessage);
}

#[test]
fn bus_fans_out_to_every_subscriber_once() {
    let mut bus = FanoutBus::new(DEFAULT_CAPACITY);
    let a = bus.subscribe();
    let b = bus.subscribe();
    let c = bus.subscribe();
    bus.publish(msg("alice", "one"));
    bus.publish(msg("bob", "two"));
    for id in [a, b, c] {
        assert_eq!(expect_envelope(bus.receive(id)).content, "one");
        assert_eq!(expect_envelope(bus.receive(id)).content, "two");
        assert!(matches!(bus.receive(id), Received::Empty));
    }
    assert_eq!(bus.published_count(), 2);
}

#[test]
fn bus_late_subscriber_sees_only_later_envelopes() {
    let mut bus = FanoutBus::new(4);
    bus.publish(msg("alice", "before"));
    let late = bus.subscribe();
    assert!(matches!(bus.receive(late), Received::Empty));
    bus.publish(msg("alice", "after"));
    assert_eq!(expect_envelope(bus.receive(late)).content, "after");
}

#[test]
fn bus_self_delivery() {
    let mut bus = FanoutBus::new(DEFAULT_CAPACITY);
    let me = bus.subscribe();
    bus.publish(msg("alice", "echo"));
    let back = expect_envelope(bus.receive(me));
    assert_eq!(back.username, "alice");
    assert_eq!(back.content, "echo");
    assert!(matches!(bus.receive(me), Received::Empty));
}

#[test]
fn bus_exactly_capacity_does_not_lag() {
    let mut bus = FanoutBus::new(DEFAULT_CAPACITY);
    let slow = bus.subscribe();
    for i in 0..100 {
        bus.publish(msg("alice", &i.to_string()));
    }
    assert_eq!(expect_envelope(bus.receive(slow)).content, "0");
}

#[test]
fn bus_stalled_subscriber_lags_then_resumes() {
    let mut bus = FanoutBus::new(DEFAULT_CAPACITY);
    let slow = bus.subscribe();
    let fast = bus.subscribe();
    for i in 0..150 {
        bus.publish(msg("alice", &i.to_string()));
        assert_eq!(expect_envelope(bus.receive(fast)).content, i.to_string());
    }
    assert_eq!(bus.retained_count(), 100);
    match bus.receive(slow) {
        Received::Lagged(n) => assert_eq!(n, 50),
        other => panic!("expected lag, got {:?}", other),
    }
    for i in 50..150 {
        assert_eq!(expect_envelope(bus.receive(slow)).content, i.to_string());
    }
    assert!(matches!(bus.receive(slow), Received::Empty));
    bus.publish(msg("alice", "fresh"));
    assert_eq!(expect_envelope(bus.receive(slow)).content, "fresh");
}

#[test]
fn bus_unsubscribe_releases_handle() {
    let mut bus = FanoutBus::new(2);
    let a = bus.subscribe();
    let b = bus.subscribe();
    assert!(bus.is_subscribed(a));
    bus.unsubscribe(a);
    assert!(!bus.is_subscribed(a));
    assert!(!bus.is_subscribed(7));
    bus.publish(msg("bob", "before"));
    let c = bus.subscribe();
    assert_eq!(c, a);
    assert!(matches!(bus.receive(c), Received::Empty));
    let d = bus.subscribe();
    assert_eq!(d, 2);
    assert_eq!(expect_envelope(bus.receive(b)).content, "before");
}

#[test]
fn session_join_then_messages_then_leave() {
    let mut s = Session::new();
    let r = s.handle(line("  alice \n"), noon());
    assert!(r.subscribe);
    assert!(!r.close);
    let join = r.publish.unwrap();
    assert_eq!(join.username, "alice");
    assert_eq!(join.content, "joined the chat!");
    assert_eq!(join.timestamp, "12:00:05");
    assert_eq!(join.message_type, MessageType::SystemNotification);
    match &s.state {
        SessionState::Active { username } => assert_eq!(username, "alice"),
        other => panic!("expected active, got {:?}", other),
    }

    let r = s.handle(line("hello there \r\n"), noon());
    assert!(!r.subscribe);
    let m = r.publish.unwrap();
    assert_eq!(m.username, "alice");
    assert_eq!(m.content, "hello there");
    assert_eq!(m.message_type, MessageType::UserMessage);

    let r = s.handle(SessionEvent::EndOfStream, ClockTime { hour: 23, minute: 5, second: 9 });
    assert!(r.close);
    let leave = r.publish.unwrap();
    assert_eq!(leave.username, "alice");
    assert_eq!(leave.content, "left the chat!");
    assert_eq!(leave.timestamp, "23:05:09");
    assert_eq!(leave.message_type, MessageType::SystemNotification);
    assert!(s.is_closed());

    let r = s.handle(line("late\n"), noon());
    assert!(r.publish.is_none() && !r.close && !r.subscribe && r.send.is_none());
    let r = s.handle(SessionEvent::EndOfStream, noon());
    assert!(r.publish.is_none() && !r.close);
}

#[test]
fn session_disconnect_before_username_is_silent() {
    let mut s = Session::new();
    let r = s.handle(SessionEvent::EndOfStream, noon());
    assert!(r.close && r.publish.is_none() && !r.subscribe);
    assert!(s.is_closed());

    let mut t = Session::new();
    let r = t.handle(SessionEvent::ReadFailed, noon());
    assert!(r.close && r.publish.is_none());
    let r = t.handle(line("bob\n"), noon());
    assert!(r.publish.is_none());
}

#[test]
fn session_errors_route_to_leave() {
    for ev in [SessionEvent::ReadFailed, SessionEvent::WriteFailed, SessionEvent::BusClosed] {
        let mut s = Session::new();
        s.handle(line("carol\n"), noon());
        let r = s.handle(ev, noon());
        assert!(r.close);
        assert_eq!(r.publish.unwrap().content, "left the chat!");
    }
}

#[test]
fn session_lag_is_not_fatal() {
    let mut s = Session::new();
    s.handle(line("dave\n"), noon());
    let r = s.handle(SessionEvent::Lagged(12), noon());
    assert!(!r.close && r.publish.is_none() && r.send.is_none());
    assert!(!s.is_closed());
    let r = s.handle(SessionEvent::Delivered(msg("erin", "hi")), noon());
    assert_eq!(
        r.send.unwrap(),
        "{\"username\":\"erin\",\"content\":\"hi\",\"timestamp\":\"12:00:05\",\"message_type\":\"UserMessage\"}\n"
    );
}

#[test]
fn session_ignores_deliveries_before_username() {
    let mut s = Session::new();
    let r = s.handle(SessionEvent::Delivered(msg("erin", "hi")), noon());
    assert!(r.send.is_none() && r.publish.is_none());
}

fn drain(c: &mut Connection, bus: &mut FanoutBus) -> Vec<String> {
    let mut out = Vec::new();
    while let Some(ev) = c.poll(bus) {
        if let Some(l) = c.on_event(bus, ev, noon()) {
            out.push(l);
        }
    }
    out
}

#[test]
fn two_clients_chat_scenario() {
    let mut bus = FanoutBus::new(DEFAULT_CAPACITY);
    let mut a = Connection::new();
    let mut b = Connection::new();
    assert!(a.on_event(&mut bus, line("alice\n"), noon()).is_none());
    let seen_a = drain(&mut a, &mut bus);
    assert_eq!(
        seen_a,
        vec![
            "{\"username\":\"alice\",\"content\":\"joined the chat!\",\"timestamp\":\"12:00:05\",\"message_type\":\"SystemNotification\"}\n"
                .to_string()
        ]
    );

    b.on_event(&mut bus, line("bob\n"), noon());
    let bob_join =
        "{\"username\":\"bob\",\"content\":\"joined the chat!\",\"timestamp\":\"12:00:05\",\"message_type\":\"SystemNotification\"}\n";
    assert_eq!(drain(&mut a, &mut bus), vec![bob_join.to_string()]);
    assert_eq!(drain(&mut b, &mut bus), vec![bob_join.to_string()]);

    a.on_event(&mut bus, line("hello\n"), noon());
    let hello =
        "{\"username\":\"alice\",\"content\":\"hello\",\"timestamp\":\"12:00:05\",\"message_type\":\"UserMessage\"}\n";
    assert_eq!(drain(&mut a, &mut bus), vec![hello.to_string()]);
    assert_eq!(drain(&mut b, &mut bus), vec![hello.to_string()]);

    a.on_event(&mut bus, SessionEvent::EndOfStream, noon());
    assert!(a.subscription.is_none());
    assert!(a.session.is_closed());
    let left =
        "{\"username\":\"alice\",\"content\":\"left the chat!\",\"timestamp\":\"12:00:05\",\"message_type\":\"SystemNotification\"}\n";
    assert_eq!(drain(&mut b, &mut bus), vec![left.to_string()]);
    assert!(drain(&mut a, &mut bus).is_empty());
    assert_eq!(bus.published_count(), 4);
}

#[test]
fn connection_without_username_publishes_nothing() {
    let mut bus = FanoutBus::new(DEFAULT_CAPACITY);
    let mut watcher = Connection::new();
    watcher.on_event(&mut bus, line("watcher\n"), noon());
    drain(&mut watcher, &mut bus);
    let mut quiet = Connection::new();
    quiet.on_event(&mut bus, SessionEvent::EndOfStream, noon());
    assert!(quiet.session.is_closed());
    assert!(drain(&mut watcher, &mut bus).is_empty());
    assert_eq!(bus.published_count(), 1);
}

#[test]
fn client_classifies_input() {
    assert_eq!(classify_input(&"   ".to_string()), ClientInput::Ignore);
    assert_eq!(classify_input(&"".to_string()), ClientInput::Ignore);
    assert_eq!(classify_input(&"/help".to_string()), ClientInput::Help);
    assert_eq!(classify_input(&"/clear".to_string()), ClientInput::Clear);
    assert_eq!(classify_input(&"/quit".to_string()), ClientInput::Quit);
    assert_eq!(classify_input(&" /quit".to_string()), ClientInput::Send(" /quit\n".to_string()));
    assert_eq!(classify_input(&"hi all".to_string()), ClientInput::Send("hi all\n".to_string()));
    assert!(HELP_TEXT.contains("/clear - Clear messages"));
}

#[test]
fn client_renders_envelopes() {
    let m = msg("alice", "hello");
    assert_eq!(render(&m), "┌─[12:00:05]\n└─ alice ▶ hello\n");
    let n = ChatMessage::new("bob", "left the chat!", "01:02:03", MessageType::SystemNotification);
    assert_eq!(render(&n), "\n[bob left the chat!]\n");
}

#[test]
fn client_header_and_login_line() {
    assert_eq!(header("alice", ClockTime { hour: 7, minute: 30, second: 0 }), "╔═ RETRO CHAT ═╗ User: alice ╔═ 07:30:00 ═╗");
    assert_eq!(line_of("alice"), "alice\n");
}

#[test]
fn client_classifies_with_given_trim() {
    assert_eq!(classify_trimmed(&"  ".to_string(), ""), ClientInput::Ignore);
    assert_eq!(classify_trimmed(&"/help".to_string(), "/help"), ClientInput::Help);
    assert_eq!(classify_trimmed(&"x ".to_string(), "x"), ClientInput::Send("x \n".to_string()));
}

#[test]
fn envelope_json_escapes_control_characters() {
    let m = msg("x", "a\nb\r\u{1}\u{8}\u{c}\u{1f}/é");
    assert_eq!(
        m.to_json(),
        "{\"username\":\"x\",\"content\":\"a\\nb\\r\\u0001\\b\\f\\u001f/é\",\"timestamp\":\"12:00:05\",\"message_type\":\"UserMessage\"}"
    );
    assert!(!m.to_json().contains('\n'));
}

#[test]
fn read_outcomes_become_events() {
    assert!(matches!(event_from_read(None, String::new()), SessionEvent::ReadFailed));
    assert!(matches!(event_from_read(Some(0), String::new()), SessionEvent::EndOfStream));
    assert!(matches!(event_from_read(Some(3), "ali".to_string()), SessionEvent::EndOfStream));
    match event_from_read(Some(6), "alice\n".to_string()) {
        SessionEvent::LineRead(l) => assert_eq!(l, "alice\n"),
        other => panic!("expected a line, got {:?}", other),
    }
}

#[test]
fn partial_username_then_close_is_silent() {
    let mut s = Session::new();
    let r = s.handle(event_from_read(Some(3), "ali".to_string()), noon());
    assert!(r.close && r.publish.is_none());
}

#[test]
fn handle_given_uses_the_given_trim() {
    let mut s = Session::new();
    let r = s.handle_given(line(" zed \n"), "zed", noon());
    assert_eq!(r.publish.unwrap().username, "zed");
    let r = s.handle_given(line(" hi \n"), "hi", noon());
    let m = r.publish.unwrap();
    assert_eq!(m.content, "hi");
    assert_eq!(m.username, "zed");
}
