use vstd::prelude::*;

verus! {

/// Where a routing session stands: ports enumerated but not connected, or
/// connected and forwarding. The only transition is from the first to the
/// second.
#[derive(Clone, Copy, Debug, PartialEq, Eq, Structural)]
pub enum Phase {
    Idle,
    Routing,
}

/// What the driver reports to the session.
#[derive(Debug, PartialEq, Eq)]
pub enum Event {
    /// Both connections of the route are open.
    Activated,
    /// A message arrived on the input port, as raw bytes.
    Inbound(Vec<u8>),
    /// Sending a message to the output port failed; the text describes why.
    SendFailed(String),
}

/// What the driver is to do next.
#[derive(Debug, PartialEq, Eq)]
pub enum Action {
    Nothing,
    /// Send these bytes, as one message, to the output port.
    Send(Vec<u8>),
    /// Show this line on the console.
    Report(String),
}

/// The line that reports a failed send.
pub open spec fn report_text(detail: Seq<char>) -> Seq<char> {
    "Error sending message: "@ + detail
}

/// The phase a session moves to on an event.
pub open spec fn next_phase(phase: Phase, event: Event) -> Phase {
    match event {
        Event::Activated => Phase::Routing,
        _ => phase,
    }
}

/// Whether `a` is the action a session in `phase` takes on `event`.
pub open spec fn is_action(phase: Phase, event: Event, a: Action) -> bool {
    match phase {
        Phase::Idle => a is Nothing,
        Phase::Routing => match event {
            Event::Activated => a is Nothing,
            Event::Inbound(message) => a == Action::Send(message),
            Event::SendFailed(detail) => a matches Action::Report(line) && line@ == report_text(detail@),
        },
    }
}

/// The state of one routing session.
pub struct Session {
    pub phase: Phase,
}

impl Session {
    /// A session whose ports are not connected yet.
    pub fn new() -> (s: Self)
        ensures
            s.phase == Phase::Idle,
    {
        Session { phase: Phase::Idle }
    }

    /// Moves the session on by one event and says what to do about it.
    /// Messages are forwarded only while routing, and verbatim; a failed
    /// send is reported and the session goes on routing.
    pub fn step(&mut self, event: Event) -> (a: Action)
        ensures
            final(self).phase == next_phase(old(self).phase, event),
            is_action(old(self).phase, event, a),
    {
        let routing = match self.phase {
            Phase::Routing => true,
            Phase::Idle => false,
        };
        match event {
            Event::Activated => {
                self.phase = Phase::Routing;
                Action::Nothing
            },
            Event::Inbound(message) => {
                if routing {
                    Action::Send(message)
                } else {
                    Action::Nothing
                }
            },
            Event::SendFailed(detail) => {
                if routing {
                    let mut line = "Error sending message: ".to_owned();
                    line.append(detail.as_str());
                    Action::Report(line)
                } else {
                    Action::Nothing
                }
            },
        }
    }
}

/// Once routing, every inbound message is sent on, byte for byte, as one
/// message, and the session stays routing.
pub proof fn lemma_forwarding_is_verbatim(message: Vec<u8>, a: Action)
    requires
        is_action(Phase::Routing, Event::Inbound(message), a),
    ensures
        a == Action::Send(message),
        a->Send_0@ == message@,
        next_phase(Phase::Routing, Event::Inbound(message)) == Phase::Routing,
{
}

/// A failed send does not end routing: it is reported, the session stays
/// routing, and the next inbound message is still sent on.
pub proof fn lemma_send_failure_not_fatal(detail: String, report: Action, message: Vec<u8>, a: Action)
    requires
        is_action(Phase::Routing, Event::SendFailed(detail), report),
        is_action(next_phase(Phase::Routing, Event::SendFailed(detail)), Event::Inbound(message), a),
    ensures
        next_phase(Phase::Routing, Event::SendFailed(detail)) == Phase::Routing,
        report matches Action::Report(line) && line@ == report_text(detail@),
        a == Action::Send(message),
{
}

/// Before activation nothing is sent, and activation is the one way into
/// routing, where the session then stays.
pub proof fn lemma_idle_sends_nothing(event: Event, a: Action)
    requires
        is_action(Phase::Idle, event, a),
    ensures
        a is Nothing,
        next_phase(Phase::Idle, event) == Phase::Routing <==> event is Activated,
        next_phase(Phase::Routing, event) == Phase::Routing,
{
}

} // verus!
