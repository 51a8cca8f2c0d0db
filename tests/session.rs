use ping_bridge::session::{
    decode_text, outbound_payload, start, Action, Event, PingSession, PAYLOAD_SUFFIX,
};
use ping_bridge::settlement::CellState;

fn with_suffix(message: &str) -> String {
    format!("{}{}", message, PAYLOAD_SUFFIX)
}

#[test]
fn echo_round_trip() {
    let mut s = start::<String>(Ok(()), "hi").unwrap();
    let sent = s.on_event::<String>(Event::Opened);
    assert_eq!(sent, Action::Send("hi oh Yah baby! from WASM Rust".to_string()));
    let reply = "hi oh Yah baby! from WASM Rust echoed".to_string();
    let got = s.on_event::<String>(Event::Message(Some(reply.clone())));
    assert_eq!(got, Action::Resolve(reply));
    assert_eq!(s.cell_state(), CellState::Resolved);
}

#[test]
fn error_before_open_rejects() {
    let mut s = PingSession::new("hi");
    let got = s.on_event(Event::Errored("refused".to_string()));
    assert_eq!(got, Action::Reject("refused".to_string()));
    assert_eq!(s.cell_state(), CellState::Rejected);
    assert!(s.is_settled());
}

#[test]
fn second_reply_is_discarded() {
    let mut s = PingSession::new("hi");
    let first = s.on_message::<String>(Some("first".to_string()));
    assert_eq!(first, Action::Resolve("first".to_string()));
    let second = s.on_message::<String>(Some("second".to_string()));
    assert_eq!(second, Action::Ignore);
    assert_eq!(s.cell_state(), CellState::Resolved);
}

#[test]
fn undecodable_reply_resolves_empty() {
    let mut s = PingSession::new("hi");
    let got = s.on_message::<String>(None);
    assert_eq!(got, Action::Resolve(String::new()));
    assert_eq!(s.cell_state(), CellState::Resolved);
}

#[test]
fn setup_failure_is_returned_at_once() {
    let r = start(Err("bad url".to_string()), "hi");
    assert!(matches!(r, Err(ref e) if e == "bad url"));
}

#[test]
fn setup_success_gives_fresh_session() {
    let s = start::<String>(Ok(()), "hi").unwrap();
    assert!(!s.has_sent());
    assert!(!s.is_settled());
    assert_eq!(s.cell_state(), CellState::Armed);
    assert_eq!(s.payload(), with_suffix("hi"));
}

#[test]
fn payload_appends_suffix() {
    assert_eq!(outbound_payload("hi"), "hi oh Yah baby! from WASM Rust");
    assert_eq!(outbound_payload(""), PAYLOAD_SUFFIX);
    let already = with_suffix("x");
    assert_eq!(outbound_payload(&already), format!("x{}{}", PAYLOAD_SUFFIX, PAYLOAD_SUFFIX));
}

#[test]
fn decode_text_falls_back_to_empty() {
    assert_eq!(decode_text(Some("abc".to_string())), "abc");
    assert_eq!(decode_text(None), "");
}

#[test]
fn nothing_is_sent_before_open() {
    let mut s = PingSession::new("hi");
    assert_eq!(s.on_event::<String>(Event::Message(Some("early".to_string()))), Action::Resolve("early".to_string()));
    assert_eq!(s.on_event(Event::Errored("late".to_string())), Action::Ignore);
    assert!(!s.has_sent());
    assert_eq!(s.on_open::<String>(), Action::Send(with_suffix("hi")));
    assert!(s.has_sent());
}

#[test]
fn payload_is_sent_once() {
    let mut s = PingSession::new("ping");
    assert_eq!(s.on_open::<String>(), Action::Send(with_suffix("ping")));
    assert_eq!(s.on_open::<String>(), Action::Ignore);
    assert_eq!(s.on_open::<String>(), Action::Ignore);
}

#[test]
fn first_settlement_wins_over_interleaved_events() {
    let events = vec![
        Event::Opened,
        Event::Errored("boom".to_string()),
        Event::Message(Some("reply".to_string())),
        Event::Opened,
        Event::Errored("again".to_string()),
        Event::Message(None),
    ];
    let mut s = PingSession::new("m");
    let actions: Vec<Action<String>> = events.into_iter().map(|e| s.on_event(e)).collect();
    assert_eq!(
        actions,
        vec![
            Action::Send(with_suffix("m")),
            Action::Reject("boom".to_string()),
            Action::Ignore,
            Action::Ignore,
            Action::Ignore,
            Action::Ignore,
        ]
    );
    assert_eq!(s.cell_state(), CellState::Rejected);
}

#[test]
fn no_settling_event_leaves_cell_armed() {
    let mut s = PingSession::new("m");
    assert_eq!(s.on_event::<String>(Event::Opened), Action::Send(with_suffix("m")));
    assert_eq!(s.cell_state(), CellState::Armed);
    assert!(!s.is_settled());
}
