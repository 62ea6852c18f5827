use vstd::prelude::*;

verus! {

/// A unified address: either a domain name with a port or a literal IP
/// address with a port. Used both for the destination a client wants to
/// reach and for the client's own observed socket address. A value is
/// never mutated after construction.
#[allow(inconsistent_fields)]
pub enum UnifiedAddress {
    Domain { host: Vec<u8>, port: u16 },
    IpV4 { ip: [u8; 4], port: u16 },
    IpV6 { ip: [u8; 16], port: u16 },
}

/// The mathematical value of a unified address: the same three shapes over
/// byte sequences.
#[allow(inconsistent_fields)]
pub enum AddressView {
    Domain { host: Seq<u8>, port: u16 },
    IpV4 { ip: Seq<u8>, port: u16 },
    IpV6 { ip: Seq<u8>, port: u16 },
}

impl View for UnifiedAddress {
    type V = AddressView;

    open spec fn view(&self) -> AddressView {
        match self {
            UnifiedAddress::Domain { host, port } => AddressView::Domain {
                host: host@,
                port: *port,
            },
            UnifiedAddress::IpV4 { ip, port } => AddressView::IpV4 { ip: ip@, port: *port },
            UnifiedAddress::IpV6 { ip, port } => AddressView::IpV6 { ip: ip@, port: *port },
        }
    }
}

impl UnifiedAddress {
    /// The port component, whichever variant the address is.
    pub open spec fn spec_port(self) -> u16 {
        match self {
            UnifiedAddress::Domain { port, .. } => port,
            UnifiedAddress::IpV4 { port, .. } => port,
            UnifiedAddress::IpV6 { port, .. } => port,
        }
    }

    pub fn port(&self) -> (p: u16)
        ensures
            p == self.spec_port(),
    {
        match self {
            UnifiedAddress::Domain { port, .. } => *port,
            UnifiedAddress::IpV4 { port, .. } => *port,
            UnifiedAddress::IpV6 { port, .. } => *port,
        }
    }
}

} // verus!
