//! Inputs that resolve to socket addresses.

use crate::runtime::Runtime;
use crate::traits::addr::{
    AsyncToSocketAddrs, IpAddress, ResolutionView, Resolution, ResolveError, SocketAddress,
};
use crate::traits::executor::{Ambient, Executor};
use crate::traits::runtime::RuntimeKit;
use vstd::prelude::*;

verus! {

/// Socket addresses that are known already.
#[derive(Debug, Clone, PartialEq, Eq)]
pub struct SocketAddrs(pub Vec<SocketAddress>);

impl AsyncToSocketAddrs for SocketAddrs {
    type Name = ();

    open spec fn resolution(self, ambient: Ambient) -> Result<ResolutionView<()>, ResolveError> {
        Ok(ResolutionView::Resolved(self.0@))
    }

    fn to_socket_addrs(self, ambient: Ambient) -> (got: Result<Resolution<()>, ResolveError>) {
        Ok(Resolution::Resolved(self.0))
    }
}

/// The socket addresses of a run of IP addresses that share one port, handed
/// out one by one in the order of the IP addresses.
#[derive(Debug)]
pub struct SocketAddrsFromIpAddrs {
    ips: Vec<IpAddress>,
    next: usize,
    port: u16,
}

/// The socket addresses of some IP addresses on one port, in their order.
pub open spec fn on_port(ips: Seq<IpAddress>, port: u16) -> Seq<SocketAddress> {
    ips.map_values(|ip: IpAddress| SocketAddress { ip, port })
}

impl SocketAddrsFromIpAddrs {
    #[verifier::type_invariant]
    spec fn in_bounds(self) -> bool {
        self.next <= self.ips.len()
    }

    /// The socket addresses that are still to come, in order.
    pub closed spec fn remaining(&self) -> Seq<SocketAddress> {
        on_port(self.ips@.skip(self.next as int), self.port)
    }

    /// Pairs every IP address with the port.
    pub fn new(ips: Vec<IpAddress>, port: u16) -> (addrs: Self)
        ensures
            addrs.remaining() == on_port(ips@, port),
    {
        assert(ips@.skip(0) =~= ips@);
        SocketAddrsFromIpAddrs { ips, next: 0, port }
    }

    /// Hands out the next socket address, `None` when there is none left.
    pub fn next(&mut self) -> (addr: Option<SocketAddress>)
        ensures
            old(self).remaining().len() == 0 ==> addr is None
                && final(self).remaining() == old(self).remaining(),
            old(self).remaining().len() > 0 ==> addr == Some(old(self).remaining()[0])
                && final(self).remaining() == old(self).remaining().skip(1),
    {
        proof {
            use_type_invariant(&*self);
        }
        if self.next < self.ips.len() {
            let ip = self.ips[self.next];
            self.next = self.next + 1;
            proof {
                assert(final(self).remaining() =~= old(self).remaining().skip(1));
            }
            Some(SocketAddress::new(ip, self.port))
        } else {
            None
        }
    }

    /// All socket addresses that are still to come, in order.
    pub fn into_vec(self) -> (addrs: Vec<SocketAddress>)
        ensures
            addrs@ == self.remaining(),
    {
        proof {
            use_type_invariant(&self);
        }
        let mut addrs: Vec<SocketAddress> = Vec::new();
        let mut i: usize = self.next;
        while i < self.ips.len()
            invariant
                self.next <= i <= self.ips.len(),
                addrs@ == on_port(self.ips@.subrange(self.next as int, i as int), self.port),
            decreases self.ips.len() - i,
        {
            addrs.push(SocketAddress::new(self.ips[i], self.port));
            assert(addrs@ =~= on_port(
                self.ips@.subrange(self.next as int, (i + 1) as int),
                self.port,
            ));
            i += 1;
        }
        assert(self.ips@.subrange(self.next as int, i as int) =~= self.ips@.skip(self.next as int));
        addrs
    }
}

/// A name that the blocking resolver of the system is to resolve, off the
/// scheduler of a runtime.
pub struct SocketAddrsResolver<'a, RK: RuntimeKit, A> {
    /// The runtime on whose dedicated pool the resolver runs.
    pub runtime: &'a Runtime<RK>,
    /// The name to resolve.
    pub addrs: A,
}

impl<'a, RK: RuntimeKit, A> AsyncToSocketAddrs for SocketAddrsResolver<'a, RK, A> {
    type Name = A;

    open spec fn resolution(self, ambient: Ambient) -> Result<ResolutionView<A>, ResolveError> {
        Ok(ResolutionView::Blocking(self.runtime.spawn_blocking_route(ambient), self.addrs))
    }

    fn to_socket_addrs(self, ambient: Ambient) -> (got: Result<Resolution<A>, ResolveError>) {
        Ok(Resolution::Blocking(self.runtime.spawn_blocking(ambient), self.addrs))
    }
}

} // verus!
