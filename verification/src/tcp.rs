//! The four TCP queries.
//!
//! Each takes the capture of one run of the host tool with the selector of
//! `Protocol::Tcp`, and answers from it alone.

use crate::listing::orderly;
use crate::query::{free_ports, settles, used_ports, Capture, Mode, QueryError};
use crate::range::PortRange;
use vstd::prelude::*;

verus! {

/// The privileged TCP ports (1 to 1023) that are listening,
/// in ascending order; `Ok(None)` where there is no such port.
pub fn privileged_tcp_used(capture: &Capture) -> (result: Result<Option<Vec<u16>>, QueryError>)
    ensures
        settles(result, *capture, PortRange::Privileged, Mode::Used),
        result matches Ok(Some(list)) ==> orderly(list@, PortRange::Privileged),
{
    used_ports(capture, PortRange::Privileged)
}

/// The privileged TCP ports (1 to 1023) that are not listening,
/// in ascending order; `Ok(None)` where there is no such port.
pub fn privileged_tcp_free(capture: &Capture) -> (result: Result<Option<Vec<u16>>, QueryError>)
    ensures
        settles(result, *capture, PortRange::Privileged, Mode::Free),
        result matches Ok(Some(list)) ==> orderly(list@, PortRange::Privileged),
{
    free_ports(capture, PortRange::Privileged)
}

/// The unprivileged TCP ports (1024 to 65535) that are listening,
/// in ascending order; `Ok(None)` where there is no such port.
pub fn unprivileged_tcp_used(capture: &Capture) -> (result: Result<Option<Vec<u16>>, QueryError>)
    ensures
        settles(result, *capture, PortRange::Unprivileged, Mode::Used),
        result matches Ok(Some(list)) ==> orderly(list@, PortRange::Unprivileged),
{
    used_ports(capture, PortRange::Unprivileged)
}

/// The unprivileged TCP ports (1024 to 65535) that are not listening,
/// in ascending order; `Ok(None)` where there is no such port.
pub fn unprivileged_tcp_free(capture: &Capture) -> (result: Result<Option<Vec<u16>>, QueryError>)
    ensures
        settles(result, *capture, PortRange::Unprivileged, Mode::Free),
        result matches Ok(Some(list)) ==> orderly(list@, PortRange::Unprivileged),
{
    free_ports(capture, PortRange::Unprivileged)
}

} // verus!
