use midi_router::session::{Action, Event, Phase, Session};

#[test]
fn idle_session_forwards_nothing() {
    let mut s = Session::new();
    assert_eq!(s.phase, Phase::Idle);
    assert_eq!(s.step(Event::Inbound(vec![0x90, 60, 100])), Action::Nothing);
    assert_eq!(s.step(Event::SendFailed("x".to_string())), Action::Nothing);
    assert_eq!(s.phase, Phase::Idle);
}

#[test]
fn activation_starts_routing() {
    let mut s = Session::new();
    assert_eq!(s.step(Event::Activated), Action::Nothing);
    assert_eq!(s.phase, Phase::Routing);
}

#[test]
fn inbound_message_is_sent_verbatim() {
    let mut s = Session::new();
    s.step(Event::Activated);
    let msg = vec![0x90u8, 60, 100];
    assert_eq!(s.step(Event::Inbound(msg.clone())), Action::Send(msg));
    let sysex = vec![0xF0u8, 0x7E, 0x7F, 0x06, 0x01, 0xF7];
    assert_eq!(s.step(Event::Inbound(sysex.clone())), Action::Send(sysex));
    assert_eq!(s.phase, Phase::Routing);
}

#[test]
fn send_failure_is_reported_and_routing_goes_on() {
    let mut s = Session::new();
    s.step(Event::Activated);
    assert_eq!(
        s.step(Event::SendFailed("Other(\"port gone\")".to_string())),
        Action::Report("Error sending message: Other(\"port gone\")".to_string())
    );
    assert_eq!(s.phase, Phase::Routing);
    let msg = vec![0x80u8, 60, 0];
    assert_eq!(s.step(Event::Inbound(msg.clone())), Action::Send(msg));
}
