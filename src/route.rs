use vstd::prelude::*;

use crate::errors::Errors;
use crate::lookup::{first_named, picked};

verus! {

/// A bound pair of ports: messages arriving at `source` are relayed to `target`.
pub struct Route<S, T> {
    pub source: S,
    pub target: T,
}

impl<S, T> Route<S, T> {
    pub fn new(source: S, target: T) -> (r: Self)
        ensures
            r.source == source,
            r.target == target,
    {
        Self { source, target }
    }
}

/// What resolving two looked-up ports gives: the output port is checked
/// first, then the input port, and a route only when both were found.
pub open spec fn resolution<S, T>(
    source: Option<S>,
    target: Option<T>,
    source_name: String,
    target_name: String,
) -> Result<Route<S, T>, Errors> {
    match target {
        None => Err(Errors::InvalidOutputPort(target_name)),
        Some(t) => match source {
            None => Err(Errors::InvalidInputPort(source_name)),
            Some(s) => Ok(Route { source: s, target: t }),
        },
    }
}

/// Builds a route from the ports found for the two names, or names the
/// port that was not found.
pub fn resolve<S, T>(
    source: Option<S>,
    target: Option<T>,
    source_name: String,
    target_name: String,
) -> (r: Result<Route<S, T>, Errors>)
    ensures
        r == resolution(source, target, source_name, target_name),
{
    match target {
        None => Err(Errors::InvalidOutputPort(target_name)),
        Some(t) => match source {
            None => Err(Errors::InvalidInputPort(source_name)),
            Some(s) => Ok(Route::new(s, t)),
        },
    }
}

/// A route is refused, naming the port, whenever the target name is not
/// among the enumerated output ports or the source name is not among the
/// enumerated input ports; no route exists then to be connected.
pub proof fn lemma_unknown_name_refused<S, T>(
    inputs: Seq<S>,
    input_names: Seq<Option<String>>,
    outputs: Seq<T>,
    output_names: Seq<Option<String>>,
    source_name: String,
    target_name: String,
)
    requires
        first_named(output_names, target_name@) is None || first_named(input_names, source_name@) is None,
    ensures
        ({
            let r = resolution(
                picked(inputs, input_names, source_name@),
                picked(outputs, output_names, target_name@),
                source_name,
                target_name,
            );
            &&& r is Err
            &&& first_named(output_names, target_name@) is None ==> r == Err::<Route<S, T>, Errors>(
                Errors::InvalidOutputPort(target_name),
            )
            &&& first_named(output_names, target_name@) is Some ==> r == Err::<Route<S, T>, Errors>(
                Errors::InvalidInputPort(source_name),
            )
        }),
{
}

/// When both names are found, the route holds exactly the first port of
/// each category that carries the name.
pub proof fn lemma_known_names_resolved<S, T>(
    inputs: Seq<S>,
    input_names: Seq<Option<String>>,
    outputs: Seq<T>,
    output_names: Seq<Option<String>>,
    source_name: String,
    target_name: String,
    i: int,
    o: int,
)
    requires
        first_named(input_names, source_name@) == Some(i),
        first_named(output_names, target_name@) == Some(o),
    ensures
        resolution(
            picked(inputs, input_names, source_name@),
            picked(outputs, output_names, target_name@),
            source_name,
            target_name,
        ) == Ok::<Route<S, T>, Errors>(Route { source: inputs[i], target: outputs[o] }),
{
}

} // verus!
