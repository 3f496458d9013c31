use vstd::prelude::*;

use crate::errors::Errors;

verus! {

/// Handles on the host's MIDI input and output subsystems.
pub struct Devices<I, O> {
    pub input: I,
    pub output: O,
}

/// What opening both subsystems gives: the devices when both opened, else
/// an initialization failure.
pub open spec fn opened<I, O, E, F>(input: Result<I, E>, output: Result<O, F>) -> Result<Devices<I, O>, Errors> {
    match (input, output) {
        (Ok(i), Ok(o)) => Ok(Devices { input: i, output: o }),
        _ => Err(Errors::InitFailure),
    }
}

impl<I, O> Devices<I, O> {
    /// Takes the outcome of opening each subsystem; both must have opened.
    pub fn new<E, F>(input: Result<I, E>, output: Result<O, F>) -> (r: Result<Self, Errors>)
        ensures
            r == opened(input, output),
    {
        match (input, output) {
            (Ok(input), Ok(output)) => Ok(Devices { input, output }),
            _ => Err(Errors::InitFailure),
        }
    }
}

} // verus!
