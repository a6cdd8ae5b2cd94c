//! Listing the ports of a range in ascending order: those that belong to a
//! set, or those that do not.

use crate::range::PortRange;
use std::collections::HashSet;
use vstd::prelude::*;

verus! {

/// The members of `members` from `low` to `high`, bounds included, in
/// ascending order.
pub open spec fn listing(members: Set<u16>, low: int, high: int) -> Seq<u16>
    recommends
        0 <= low,
        high <= u16::MAX,
    decreases high - low + 1,
{
    if high < low {
        Seq::empty()
    } else if members.contains(high as u16) {
        listing(members, low, high - 1).push(high as u16)
    } else {
        listing(members, low, high - 1)
    }
}

/// Whether `ports` is in strictly ascending order, so that no port stands
/// in it twice.
pub open spec fn ascending(ports: Seq<u16>) -> bool {
    forall|i: int, j: int| 0 <= i < j < ports.len() ==> ports[i] < ports[j]
}

/// Whether `ports` is a list that a query may hand out for `range`: in
/// strictly ascending order, with every port within the range.
pub open spec fn orderly(ports: Seq<u16>, range: PortRange) -> bool {
    &&& ascending(ports)
    &&& forall|i: int| 0 <= i < ports.len() ==> range.spec_contains(#[trigger] ports[i])
}

/// A listing holds members only, all of them within the bounds, in strictly
/// ascending order, and it leaves out no member within the bounds.
pub proof fn lemma_listing(members: Set<u16>, low: int, high: int)
    requires
        0 <= low,
        high <= u16::MAX,
    ensures
        forall|i: int|
            0 <= i < listing(members, low, high).len() ==> {
                &&& low <= #[trigger] listing(members, low, high)[i] <= high
                &&& members.contains(listing(members, low, high)[i])
            },
        forall|port: u16|
            members.contains(port) && low <= port <= high ==> listing(members, low, high).contains(
                port,
            ),
        ascending(listing(members, low, high)),
    decreases high - low + 1,
{
    if high >= low {
        let before = listing(members, low, high - 1);
        let all = listing(members, low, high);
        lemma_listing(members, low, high - 1);
        assert forall|port: u16| members.contains(port) && low <= port <= high implies all.contains(
            port,
        ) by {
            if port < high {
                let i = choose|i: int| 0 <= i < before.len() && before[i] == port;
                assert(all[i] == port);
            } else {
                assert(all[all.len() - 1] == port);
            }
        }
    }
}

/// Two sets with the same members within the bounds have the same listing.
pub proof fn lemma_listing_agrees(one: Set<u16>, other: Set<u16>, low: int, high: int)
    requires
        0 <= low,
        high <= u16::MAX,
        forall|port: u16| low <= port <= high ==> (one.contains(port) <==> other.contains(port)),
    ensures
        listing(one, low, high) == listing(other, low, high),
    decreases high - low + 1,
{
    if high >= low {
        lemma_listing_agrees(one, other, low, high - 1);
    }
}

/// The ports of `range` in ascending order: those in `set` where `present`
/// holds, those not in `set` where it does not.
pub(crate) fn list(set: &HashSet<u16>, range: PortRange, present: bool) -> (ports: Vec<u16>)
    ensures
        ports@ == listing(
            if present {
                set@
            } else {
                set@.complement()
            },
            range.low() as int,
            range.high() as int,
        ),
{
    broadcast use vstd::std_specs::hash::group_hash_axioms;

    let ghost wanted = if present {
        set@
    } else {
        set@.complement()
    };
    let low: u32 = range.low() as u32;
    let high: u32 = range.high() as u32;
    let mut ports: Vec<u16> = Vec::new();
    let mut next: u32 = low;
    while next <= high
        invariant
            1 <= low <= next <= high + 1,
            high <= u16::MAX,
            wanted == if present {
                set@
            } else {
                set@.complement()
            },
            ports@ == listing(wanted, low as int, next - 1),
        decreases high + 1 - next,
    {
        let port: u16 = next as u16;
        if set.contains(&port) == present {
            ports.push(port);
        }
        next += 1;
    }
    ports
}

} // verus!
