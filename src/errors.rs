use vstd::prelude::*;

verus! {

/// What can go wrong while setting up a route; each one ends the run.
#[derive(Debug, PartialEq, Eq)]
pub enum Errors {
    /// The MIDI input or output subsystem could not be opened.
    InitFailure,
    /// No input port carries the given name.
    InvalidInputPort(String),
    /// No output port carries the given name.
    InvalidOutputPort(String),
    /// A port could not be read or connected while activating the route.
    ForwardingError,
}

/// The message shown to the user for an error.
pub open spec fn message_of(e: Errors) -> Seq<char> {
    match e {
        Errors::InitFailure => "Failed to initialize MIDI devices"@,
        Errors::InvalidInputPort(port) => "Invalid input port: "@ + port@,
        Errors::InvalidOutputPort(port) => "Invalid output port: "@ + port@,
        Errors::ForwardingError => "Failed to forward MIDI messages"@,
    }
}

impl Errors {
    /// The message shown to the user for this error.
    pub fn message(&self) -> (r: String)
        ensures
            r@ == message_of(*self),
    {
        match self {
            Errors::InitFailure => "Failed to initialize MIDI devices".to_owned(),
            Errors::InvalidInputPort(port) => {
                let mut r = "Invalid input port: ".to_owned();
                r.append(port.as_str());
                r
            },
            Errors::InvalidOutputPort(port) => {
                let mut r = "Invalid output port: ".to_owned();
                r.append(port.as_str());
                r
            },
            Errors::ForwardingError => "Failed to forward MIDI messages".to_owned(),
        }
    }
}

} // verus!
