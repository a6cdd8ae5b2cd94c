//! The two fixed port ranges and the two transport protocols.

use vstd::prelude::*;

verus! {

/// One of the two fixed, non-overlapping port ranges.
#[derive(Clone, Copy, Debug, PartialEq, Eq, Structural)]
pub enum PortRange {
    /// Ports 1 to 1023.
    Privileged,
    /// Ports 1024 to 65535.
    Unprivileged,
}

impl PortRange {
    /// The lowest port of the range.
    pub open spec fn spec_low(&self) -> u16 {
        match self {
            PortRange::Privileged => 1,
            PortRange::Unprivileged => 1024,
        }
    }

    /// The highest port of the range.
    pub open spec fn spec_high(&self) -> u16 {
        match self {
            PortRange::Privileged => 1023,
            PortRange::Unprivileged => 65535,
        }
    }

    /// Whether `port` lies within the range, bounds included.
    pub open spec fn spec_contains(&self, port: u16) -> bool {
        self.spec_low() <= port <= self.spec_high()
    }

    /// The ports of the range, as a set.
    pub open spec fn ports(&self) -> Set<u16> {
        Set::new(|port: u16| self.spec_contains(port))
    }

    /// The lowest port of the range.
    #[verifier::when_used_as_spec(spec_low)]
    pub fn low(&self) -> (port: u16)
        ensures
            port == self.spec_low(),
    {
        match self {
            PortRange::Privileged => 1,
            PortRange::Unprivileged => 1024,
        }
    }

    /// The highest port of the range.
    #[verifier::when_used_as_spec(spec_high)]
    pub fn high(&self) -> (port: u16)
        ensures
            port == self.spec_high(),
    {
        match self {
            PortRange::Privileged => 1023,
            PortRange::Unprivileged => 65535,
        }
    }

    /// Whether `port` lies within the range, bounds included.
    #[verifier::when_used_as_spec(spec_contains)]
    pub fn contains(&self, port: u16) -> (inside: bool)
        ensures
            inside == self.spec_contains(port),
    {
        self.low() <= port && port <= self.high()
    }
}

/// The transport protocol whose listening sockets a snapshot shows.
#[derive(Clone, Copy, Debug, PartialEq, Eq, Structural)]
pub enum Protocol {
    /// TCP: sockets in the LISTEN state.
    Tcp,
    /// UDP: sockets bound to a local address.
    Udp,
}

impl Protocol {
    /// The argument that asks the host tool for this protocol's listening
    /// sockets, with numeric addresses and without a header line.
    pub open spec fn spec_selector(&self) -> Seq<char> {
        match self {
            Protocol::Tcp => "-tlnH"@,
            Protocol::Udp => "-ulnH"@,
        }
    }

    /// The argument that asks the host tool for this protocol's listening
    /// sockets, with numeric addresses and without a header line.
    pub fn selector(&self) -> (flag: &'static str)
        ensures
            flag@ == self.spec_selector(),
    {
        match self {
            Protocol::Tcp => "-tlnH",
            Protocol::Udp => "-ulnH",
        }
    }
}

} // verus!
