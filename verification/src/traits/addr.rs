//! Socket addresses, and the inputs that resolve to them.

use crate::traits::executor::{Ambient, Route};
use vstd::prelude::*;

verus! {

/// An IP address, by its octets in network order.
#[derive(Debug, Clone, Copy, PartialEq, Eq, Hash)]
pub enum IpAddress {
    /// An IPv4 address.
    V4([u8; 4]),
    /// An IPv6 address.
    V6([u8; 16]),
}

/// An IP address together with a port.
#[derive(Debug, Clone, Copy, PartialEq, Eq, Hash)]
pub struct SocketAddress {
    /// The address of the host.
    pub ip: IpAddress,
    /// The port on that host.
    pub port: u16,
}

impl IpAddress {
    /// Pairs the address with a port.
    pub fn with_port(self, port: u16) -> (addr: SocketAddress)
        ensures
            addr == (SocketAddress { ip: self, port }),
    {
        SocketAddress { ip: self, port }
    }
}

impl SocketAddress {
    /// The address of a host and a port on it.
    pub fn new(ip: IpAddress, port: u16) -> (addr: SocketAddress)
        ensures
            addr == (SocketAddress { ip, port }),
    {
        SocketAddress { ip, port }
    }
}

/// The IPv6 address with the given segments: each segment gives two octets,
/// the high one first.
pub open spec fn segments_ip(segments: [u16; 8]) -> IpAddress {
    IpAddress::V6(
        [
            (segments[0] / 256) as u8,
            (segments[0] % 256) as u8,
            (segments[1] / 256) as u8,
            (segments[1] % 256) as u8,
            (segments[2] / 256) as u8,
            (segments[2] % 256) as u8,
            (segments[3] / 256) as u8,
            (segments[3] % 256) as u8,
            (segments[4] / 256) as u8,
            (segments[4] % 256) as u8,
            (segments[5] / 256) as u8,
            (segments[5] % 256) as u8,
            (segments[6] / 256) as u8,
            (segments[6] % 256) as u8,
            (segments[7] / 256) as u8,
            (segments[7] % 256) as u8,
        ],
    )
}

/// Each segment of an IPv6 address is written high octet first: two
/// neighbouring octets make up the segment they came from.
pub proof fn lemma_segments_are_big_endian(segments: [u16; 8], i: int)
    requires
        0 <= i < 8,
    ensures
        segments_ip(segments) matches IpAddress::V6(octets) && octets[2 * i] * 256 + octets[2 * i
            + 1] == segments[i],
{
}

/// What can stand for an IP address.
pub trait IpSealed: Sized {
    /// The address that the value stands for.
    spec fn ip(self) -> IpAddress;

    /// Converts the value into the address that it stands for.
    fn into_ip(self) -> (ip: IpAddress)
        ensures
            ip == self.ip(),
    ;
}

impl IpSealed for IpAddress {
    open spec fn ip(self) -> IpAddress {
        self
    }

    fn into_ip(self) -> (ip: IpAddress) {
        self
    }
}

impl IpSealed for [u8; 4] {
    open spec fn ip(self) -> IpAddress {
        IpAddress::V4(self)
    }

    fn into_ip(self) -> (ip: IpAddress) {
        IpAddress::V4(self)
    }
}

impl IpSealed for [u8; 16] {
    open spec fn ip(self) -> IpAddress {
        IpAddress::V6(self)
    }

    fn into_ip(self) -> (ip: IpAddress) {
        IpAddress::V6(self)
    }
}

impl IpSealed for [u16; 8] {
    open spec fn ip(self) -> IpAddress {
        segments_ip(self)
    }

    fn into_ip(self) -> (ip: IpAddress) {
        IpAddress::V6(
            [
                (self[0] / 256) as u8,
                (self[0] % 256) as u8,
                (self[1] / 256) as u8,
                (self[1] % 256) as u8,
                (self[2] / 256) as u8,
                (self[2] % 256) as u8,
                (self[3] / 256) as u8,
                (self[3] % 256) as u8,
                (self[4] / 256) as u8,
                (self[4] % 256) as u8,
                (self[5] / 256) as u8,
                (self[5] % 256) as u8,
                (self[6] / 256) as u8,
                (self[6] % 256) as u8,
                (self[7] / 256) as u8,
                (self[7] % 256) as u8,
            ],
        )
    }
}

/// What can stand for a socket address.
pub trait SocketSealed: Sized {
    /// The socket address that the value stands for.
    spec fn socket_addr(self) -> SocketAddress;

    /// Converts the value into the socket address that it stands for.
    fn into_socket_addr(self) -> (addr: SocketAddress)
        ensures
            addr == self.socket_addr(),
    ;
}

impl SocketSealed for SocketAddress {
    open spec fn socket_addr(self) -> SocketAddress {
        self
    }

    fn into_socket_addr(self) -> (addr: SocketAddress) {
        self
    }
}

/// Why an input could not even be handed to a resolver.
#[derive(Debug, Clone, Copy, PartialEq, Eq, Structural)]
pub enum ResolveError {
    /// The resolver that the engine integrates was asked for from outside the
    /// context of that engine.
    Context,
}

/// What has to happen to turn an input into socket addresses.
#[derive(Debug, PartialEq, Eq)]
pub enum Resolution<N> {
    /// Nothing: the input was literal, and these are its addresses in order.
    Resolved(Vec<SocketAddress>),
    /// The blocking resolver of the system has to resolve the name; the call
    /// runs off the scheduler, on the given route.
    Blocking(Route, N),
    /// The resolver that the engine integrates has to resolve the name.
    Native(N),
}

/// A resolution with its addresses as a sequence.
pub enum ResolutionView<N> {
    /// The addresses of a literal input, in order.
    Resolved(Seq<SocketAddress>),
    /// A name for the blocking resolver, and the route of the call.
    Blocking(Route, N),
    /// A name for the resolver that the engine integrates.
    Native(N),
}

impl<N> View for Resolution<N> {
    type V = ResolutionView<N>;

    open spec fn view(&self) -> ResolutionView<N> {
        match *self {
            Resolution::Resolved(addrs) => ResolutionView::Resolved(addrs@),
            Resolution::Blocking(route, name) => ResolutionView::Blocking(route, name),
            Resolution::Native(name) => ResolutionView::Native(name),
        }
    }
}

/// Whether a result of `to_socket_addrs` is the one that was specified.
pub open spec fn resolves_as<N>(
    got: Result<Resolution<N>, ResolveError>,
    wanted: Result<ResolutionView<N>, ResolveError>,
) -> bool {
    match got {
        Ok(resolution) => wanted == Ok::<ResolutionView<N>, ResolveError>(resolution@),
        Err(e) => wanted == Err::<ResolutionView<N>, ResolveError>(e),
    }
}

/// An input that resolves to a sequence of socket addresses.
pub trait AsyncToSocketAddrs: Sized {
    /// What is left to resolve when the input is a name.
    type Name;

    /// What has to happen to resolve the input, or why nothing can.
    spec fn resolution(self, ambient: Ambient) -> Result<ResolutionView<Self::Name>, ResolveError>;

    /// Resolves a literal input on the spot, and says which resolver a name
    /// has to go to.
    fn to_socket_addrs(self, ambient: Ambient) -> (got: Result<
        Resolution<Self::Name>,
        ResolveError,
    >)
        ensures
            resolves_as(got, self.resolution(ambient)),
    ;
}

impl<A: SocketSealed> AsyncToSocketAddrs for A {
    type Name = ();

    open spec fn resolution(self, ambient: Ambient) -> Result<ResolutionView<()>, ResolveError> {
        Ok(ResolutionView::Resolved(seq![self.socket_addr()]))
    }

    fn to_socket_addrs(self, ambient: Ambient) -> (got: Result<Resolution<()>, ResolveError>) {
        let mut addrs: Vec<SocketAddress> = Vec::new();
        addrs.push(self.into_socket_addr());
        assert(addrs@ =~= seq![self.socket_addr()]);
        Ok(Resolution::Resolved(addrs))
    }
}

impl<I: IpSealed> AsyncToSocketAddrs for (I, u16) {
    type Name = ();

    open spec fn resolution(self, ambient: Ambient) -> Result<ResolutionView<()>, ResolveError> {
        Ok(ResolutionView::Resolved(seq![SocketAddress { ip: self.0.ip(), port: self.1 }]))
    }

    fn to_socket_addrs(self, ambient: Ambient) -> (got: Result<Resolution<()>, ResolveError>) {
        let mut addrs: Vec<SocketAddress> = Vec::new();
        addrs.push(SocketAddress::new(self.0.into_ip(), self.1));
        assert(addrs@ =~= seq![SocketAddress { ip: self.0.ip(), port: self.1 }]);
        Ok(Resolution::Resolved(addrs))
    }
}

impl AsyncToSocketAddrs for Vec<SocketAddress> {
    type Name = ();

    open spec fn resolution(self, ambient: Ambient) -> Result<ResolutionView<()>, ResolveError> {
        Ok(ResolutionView::Resolved(self@))
    }

    fn to_socket_addrs(self, ambient: Ambient) -> (got: Result<Resolution<()>, ResolveError>) {
        Ok(Resolution::Resolved(self))
    }
}

impl<'a> AsyncToSocketAddrs for &'a [SocketAddress] {
    type Name = ();

    open spec fn resolution(self, ambient: Ambient) -> Result<ResolutionView<()>, ResolveError> {
        Ok(ResolutionView::Resolved(self@))
    }

    fn to_socket_addrs(self, ambient: Ambient) -> (got: Result<Resolution<()>, ResolveError>) {
        vstd::slice::slice_to_vec(self).to_socket_addrs(ambient)
    }
}

} // verus!
