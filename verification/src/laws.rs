//! What holds of every snapshot: the laws of the two queries, stated over
//! the model and proved.

use crate::grammar::{
    address_port, ends_lines, fields, is_line, line_port, lines, listening, reported, with_line,
};
use crate::lemmas::{lemma_lines_concat, lemma_lines_single, lemma_reported_concat};
use crate::listing::{ascending, lemma_listing, lemma_listing_agrees};
use crate::query::{answers, ports_of, settles, Capture, Mode, QueryError};
use crate::range::PortRange;
use vstd::prelude::*;

verus! {

/// The ports that `found` holds, as a set.
pub open spec fn port_set(found: Option<Vec<u16>>) -> Set<u16> {
    match found {
        Some(list) => list@.to_set(),
        None => Set::empty(),
    }
}

/// One more line in a snapshot adds the port that the line reports, and
/// nothing else; a line that reports no port adds nothing.
pub proof fn lemma_listening_with_line(head: Seq<char>, line: Seq<char>, tail: Seq<char>)
    requires
        ends_lines(head),
        is_line(line),
    ensures
        listening(with_line(head, line, tail)) == match line_port(line) {
            Some(port) => listening(head + tail).insert(port),
            None => listening(head + tail),
        },
{
    let ended = line + seq!['\n'];
    assert(with_line(head, line, tail) =~= head + (ended + tail));
    lemma_lines_single(line);
    lemma_lines_concat(ended, tail);
    lemma_lines_concat(head, ended + tail);
    lemma_lines_concat(head, tail);
    lemma_reported_concat(lines(head), seq![line] + lines(tail));
    lemma_reported_concat(seq![line], lines(tail));
    lemma_reported_concat(lines(head), lines(tail));
    assert forall|port: u16| reported(seq![line]).contains(port) <==> line_port(line) == Some(
        port,
    ) by {
        assert(seq![line][0] == line);
        if line_port(line) == Some(port) {
            assert(line_port(seq![line][0]) == Some(port));
        }
    }
    assert(listening(with_line(head, line, tail)) =~= match line_port(line) {
        Some(port) => listening(head + tail).insert(port),
        None => listening(head + tail),
    });
}

/// Every port that a query lists lies within the range asked for, bounds
/// included.
pub proof fn law_listed_within_range(text: Seq<char>, range: PortRange, mode: Mode)
    ensures
        forall|i: int|
            0 <= i < ports_of(text, range, mode).len() ==> range.spec_contains(
                #[trigger] ports_of(text, range, mode)[i],
            ),
{
    lemma_listing(listening(text), range.low() as int, range.high() as int);
    lemma_listing(listening(text).complement(), range.low() as int, range.high() as int);
}

/// A query lists its ports in strictly ascending order, so none of them
/// twice, however many lines of the snapshot name one port.
pub proof fn law_listed_once_ascending(text: Seq<char>, range: PortRange, mode: Mode)
    ensures
        ascending(ports_of(text, range, mode)),
        ports_of(text, range, mode).no_duplicates(),
{
    lemma_listing(listening(text), range.low() as int, range.high() as int);
    lemma_listing(listening(text).complement(), range.low() as int, range.high() as int);
}

/// The used ports of a range are exactly the ports of the range that a
/// line of the snapshot reports, and the free ports are exactly the others.
pub proof fn law_listed_membership(text: Seq<char>, range: PortRange, port: u16)
    ensures
        ports_of(text, range, Mode::Used).contains(port) <==> range.spec_contains(port)
            && listening(text).contains(port),
        ports_of(text, range, Mode::Free).contains(port) <==> range.spec_contains(port)
            && !listening(text).contains(port),
{
    lemma_listing(listening(text), range.low() as int, range.high() as int);
    lemma_listing(listening(text).complement(), range.low() as int, range.high() as int);
    assert(listening(text).complement().contains(port) == !listening(text).contains(port));
}

/// For one snapshot and one range, the used ports and the free ports
/// together are the whole range, and no port is both used and free.
pub proof fn law_used_and_free_part_the_range(
    text: Seq<char>,
    range: PortRange,
    used: Option<Vec<u16>>,
    free: Option<Vec<u16>>,
)
    requires
        answers(used, ports_of(text, range, Mode::Used)),
        answers(free, ports_of(text, range, Mode::Free)),
    ensures
        port_set(used).union(port_set(free)) == range.ports(),
        port_set(used).disjoint(port_set(free)),
{
    let listed_used = ports_of(text, range, Mode::Used);
    let listed_free = ports_of(text, range, Mode::Free);
    assert forall|port: u16|
        listed_used.to_set().union(listed_free.to_set()).contains(port) <==> range.ports().contains(
            port,
        ) by {
        law_listed_membership(text, range, port);
    }
    assert forall|port: u16|
        !(listed_used.to_set().contains(port) && listed_free.to_set().contains(port)) by {
        law_listed_membership(text, range, port);
    }
}

/// Reading one snapshot twice gives one answer: two answers to the same
/// query for the same text hold the same ports in the same order, or are
/// both `None`.
pub proof fn law_same_text_same_answer(
    text: Seq<char>,
    range: PortRange,
    mode: Mode,
    first: Option<Vec<u16>>,
    second: Option<Vec<u16>>,
)
    requires
        answers(first, ports_of(text, range, mode)),
        answers(second, ports_of(text, range, mode)),
    ensures
        first is None <==> second is None,
        first is Some ==> first->0@ == second->0@,
{
}

/// Asking one capture twice gives one result: two results of the same
/// query for the same capture are the same error, or hold the same ports in
/// the same order, or are both `Ok(None)`.
pub proof fn law_same_capture_same_result(
    capture: Capture,
    range: PortRange,
    mode: Mode,
    first: Result<Option<Vec<u16>>, QueryError>,
    second: Result<Option<Vec<u16>>, QueryError>,
)
    requires
        settles(first, capture, range, mode),
        settles(second, capture, range, mode),
    ensures
        first is Err ==> second == first,
        first matches Ok(found) ==> second is Ok && (found is None <==> second->Ok_0 is None),
        first matches Ok(Some(list)) ==> second->Ok_0->0@ == list@,
{
}

/// The two ranges do not overlap, and every port but 0 lies in one of
/// them.
pub proof fn law_ranges_do_not_overlap(port: u16)
    ensures
        !(PortRange::Privileged.spec_contains(port) && PortRange::Unprivileged.spec_contains(port)),
        port != 0 ==> PortRange::Privileged.spec_contains(port) || PortRange::Unprivileged.spec_contains(
            port,
        ),
{
}

/// A line that names a port which another line of the snapshot names too
/// changes no answer.
pub proof fn law_repeated_port_changes_nothing(
    head: Seq<char>,
    line: Seq<char>,
    tail: Seq<char>,
    range: PortRange,
    mode: Mode,
)
    requires
        ends_lines(head),
        is_line(line),
        line_port(line) matches Some(port) && listening(head + tail).contains(port),
    ensures
        listening(with_line(head, line, tail)) == listening(head + tail),
        ports_of(with_line(head, line, tail), range, mode) == ports_of(head + tail, range, mode),
{
    lemma_listening_with_line(head, line, tail);
    assert(listening(with_line(head, line, tail)) =~= listening(head + tail));
}

/// A line with fewer than four fields is ignored: the snapshot with it
/// gives every answer that the snapshot without it gives.
pub proof fn law_short_line_ignored(
    head: Seq<char>,
    line: Seq<char>,
    tail: Seq<char>,
    range: PortRange,
    mode: Mode,
)
    requires
        ends_lines(head),
        is_line(line),
        fields(line).len() < 4,
    ensures
        listening(with_line(head, line, tail)) == listening(head + tail),
        ports_of(with_line(head, line, tail), range, mode) == ports_of(head + tail, range, mode),
{
    lemma_listening_with_line(head, line, tail);
}

/// A line whose local address names no port, for want of a colon or
/// because what follows the last colon is no number or one above 65535,
/// is ignored: the snapshot with it gives every answer that the snapshot
/// without it gives.
pub proof fn law_unreadable_port_ignored(
    head: Seq<char>,
    line: Seq<char>,
    tail: Seq<char>,
    range: PortRange,
    mode: Mode,
)
    requires
        ends_lines(head),
        is_line(line),
        fields(line).len() >= 4,
        address_port(fields(line)[3]) is None,
    ensures
        listening(with_line(head, line, tail)) == listening(head + tail),
        ports_of(with_line(head, line, tail), range, mode) == ports_of(head + tail, range, mode),
{
    lemma_listening_with_line(head, line, tail);
}

/// A line that names a port outside the range asked for changes no answer
/// for that range.
pub proof fn law_port_outside_range_ignored(
    head: Seq<char>,
    line: Seq<char>,
    tail: Seq<char>,
    range: PortRange,
    mode: Mode,
)
    requires
        ends_lines(head),
        is_line(line),
        line_port(line) matches Some(port) && !range.spec_contains(port),
    ensures
        ports_of(with_line(head, line, tail), range, mode) == ports_of(head + tail, range, mode),
{
    lemma_listening_with_line(head, line, tail);
    let with = listening(with_line(head, line, tail));
    let without = listening(head + tail);
    lemma_listing_agrees(with, without, range.low() as int, range.high() as int);
    lemma_listing_agrees(
        with.complement(),
        without.complement(),
        range.low() as int,
        range.high() as int,
    );
}

} // verus!
