use vstd::prelude::*;

use crate::text::{decimal, decimal_of, views};

verus! {

/// The two categories of MIDI ports.
#[derive(Clone, Copy, Debug, PartialEq, Eq, Structural)]
pub enum PortKind {
    Input,
    Output,
}

/// The line that opens a non-empty list of ports.
pub open spec fn heading_text(kind: PortKind) -> Seq<char> {
    match kind {
        PortKind::Input => "Input ports: "@,
        PortKind::Output => "Output ports: "@,
    }
}

/// The only line printed for a category with no ports.
pub open spec fn none_found_text(kind: PortKind) -> Seq<char> {
    match kind {
        PortKind::Input => "No input ports found."@,
        PortKind::Output => "No output ports found."@,
    }
}

/// The numbered line of the port at position `i`.
pub open spec fn entry_text(i: nat, name: Seq<char>) -> Seq<char> {
    decimal_of(i) + ": "@ + name
}

/// The lines that list the ports of one category, numbered from zero.
pub open spec fn listing_of(kind: PortKind, names: Seq<Seq<char>>) -> Seq<Seq<char>> {
    if names.len() == 0 {
        seq![none_found_text(kind)]
    } else {
        seq![heading_text(kind)] + Seq::new(names.len(), |i: int| entry_text(i as nat, names[i]))
    }
}

/// A category with no ports is listed as its sentinel line and nothing else.
pub proof fn lemma_empty_category(kind: PortKind, names: Seq<Seq<char>>)
    requires
        names.len() == 0,
    ensures
        listing_of(kind, names) == seq![none_found_text(kind)],
        listing_of(kind, names).len() == 1,
{
}

/// The lines printed when a route is activated.
pub open spec fn banner_of(source: Seq<char>, target: Seq<char>) -> Seq<Seq<char>> {
    seq!["Activating route:"@, "  Input port: "@ + source, "  Output port: "@ + target]
}

/// The lines that list the ports of one category: a sentinel line when there
/// are none, else a heading and one numbered line per port.
pub fn listing(kind: PortKind, names: &Vec<String>) -> (lines: Vec<String>)
    ensures
        views(lines@) == listing_of(kind, views(names@)),
{
    let mut lines: Vec<String> = Vec::new();
    if names.len() == 0 {
        let line = match kind {
            PortKind::Input => "No input ports found.".to_owned(),
            PortKind::Output => "No output ports found.".to_owned(),
        };
        lines.push(line);
        assert(views(lines@) =~= listing_of(kind, views(names@)));
        return lines;
    }
    let heading = match kind {
        PortKind::Input => "Input ports: ".to_owned(),
        PortKind::Output => "Output ports: ".to_owned(),
    };
    lines.push(heading);
    let ghost expected = listing_of(kind, views(names@));
    let mut i: usize = 0;
    while i < names.len()
        invariant
            0 < names.len(),
            i <= names.len(),
            expected == listing_of(kind, views(names@)),
            lines@.len() == i + 1,
            forall|j: int| 0 <= j <= i ==> #[trigger] lines@[j]@ == expected[j],
        decreases names.len() - i,
    {
        let mut line = decimal(i);
        line.append(": ");
        line.append(names[i].as_str());
        lines.push(line);
        i = i + 1;
    }
    assert(views(lines@) =~= expected);
    lines
}

/// The lines that announce a route from `source` to `target`.
pub fn banner(source: &str, target: &str) -> (lines: Vec<String>)
    ensures
        views(lines@) == banner_of(source@, target@),
{
    let mut input = "  Input port: ".to_owned();
    input.append(source);
    let mut output = "  Output port: ".to_owned();
    output.append(target);
    let lines = vec!["Activating route:".to_owned(), input, output];
    assert(views(lines@) =~= banner_of(source@, target@));
    lines
}

} // verus!
