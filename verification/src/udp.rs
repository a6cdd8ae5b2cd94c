//! The four UDP queries.
//!
//! Each takes the capture of one run of the host tool with the selector of
//! `Protocol::Udp`, and answers from it alone.

use crate::listing::orderly;
use crate::query::{free_ports, settles, used_ports, Capture, Mode, QueryError};
use crate::range::PortRange;
use vstd::prelude::*;

verus! {

/// The privileged UDP ports (1 to 1023) that are bound,
/// in ascending order; `Ok(None)` where there is no such port.
pub fn privileged_udp_used(capture: &Capture) -> (result: Result<Option<Vec<u16>>, QueryError>)
    ensures
        settles(result, *capture, PortRange::Privileged, Mode::Used),
        result matches Ok(Some(list)) ==> orderly(list@, PortRange::Privileged),
{
    used_ports(capture, PortRange::Privileged)
}

/// The unprivileged UDP ports (1024 to 65535) that are not bound,
/// in ascending order; `Ok(None)` where there is no such port.
pub fn unprivileged_udp_free(capture: &Capture) -> (result: Result<Option<Vec<u16>>, QueryError>)
    ensures
        settles(result, *capture, PortRange::Unprivileged, Mode::Free),
        result matches Ok(Some(list)) ==> orderly(list@, PortRange::Unprivileged),
{
    free_ports(capture, PortRange::Unprivileged)
}

/// The unprivileged UDP ports (1024 to 65535) that are bound,
/// in ascending order; `Ok(None)` where there is no such port.
pub fn unprivileged_udp_used(capture: &Capture) -> (result: Result<Option<Vec<u16>>, QueryError>)
    ensures
        settles(result, *capture, PortRange::Unprivileged, Mode::Used),
        result matches Ok(Some(list)) ==> orderly(list@, PortRange::Unprivileged),
{
    used_ports(capture, PortRange::Unprivileged)
}

/// The privileged UDP ports (1 to 1023) that are not bound,
/// in ascending order; `Ok(None)` where there is no such port.
pub fn privileged_udp_free(capture: &Capture) -> (result: Result<Option<Vec<u16>>, QueryError>)
    ensures
        settles(result, *capture, PortRange::Privileged, Mode::Free),
        result matches Ok(Some(list)) ==> orderly(list@, PortRange::Privileged),
{
    free_ports(capture, PortRange::Privileged)
}

} // verus!
