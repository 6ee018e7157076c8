//! Configuration of the stub network interface: a purely in-memory endpoint that
//! accepts packets for any destination and routes every address to itself.
use crate::network::{lemma_zero_bits_clear, Cidr, IpAddress, Ipv4Cidr, Ipv6Cidr};
use vstd::prelude::*;

verus! {

/// The interface's own IPv4 address, 127.0.0.1. A placeholder never seen outside.
pub const IP4_ADDR: u32 = 0x7f00_0001;

/// The interface's own IPv6 address, `::1`. A placeholder never seen outside.
pub const IP6_ADDR: u128 = 1;

/// A route: packets for `destination` go via `gateway`.
#[derive(Debug, Clone, Copy, PartialEq, Eq, Hash, Structural)]
pub struct Route {
    pub destination: Cidr,
    pub gateway: IpAddress,
}

/// What the stub interface is set up with.
#[derive(Debug, Clone, PartialEq, Eq, Hash)]
pub struct StubConfig {
    /// Accept packets whatever their destination address.
    pub any_ip: bool,
    /// The interface's own addresses.
    pub addresses: Vec<Cidr>,
    /// The routing table.
    pub routes: Vec<Route>,
}

/// `c` is `a/prefix` in IPv4.
pub open spec fn is_v4(c: Cidr, a: u32, prefix: u8) -> bool {
    c matches Cidr::V4(n) && n.spec_addr() == a && n.spec_prefix() == prefix
}

/// `c` is `a/prefix` in IPv6.
pub open spec fn is_v6(c: Cidr, a: u128, prefix: u8) -> bool {
    c matches Cidr::V6(n) && n.spec_addr() == a && n.spec_prefix() == prefix
}

/// The stub configuration: any-IP mode on; 127.0.0.1/32 and `::1/128` as its
/// addresses; `0.0.0.0/0` via 127.0.0.1 and `::/0` via `::1` as its routes.
pub open spec fn is_stub_config(c: StubConfig) -> bool {
    &&& c.any_ip
    &&& c.addresses@.len() == 2
    &&& is_v4(c.addresses@[0], IP4_ADDR, 32)
    &&& is_v6(c.addresses@[1], IP6_ADDR, 128)
    &&& c.routes@.len() == 2
    &&& is_v4(c.routes@[0].destination, 0, 0)
    &&& c.routes@[0].gateway == IpAddress::V4(IP4_ADDR)
    &&& is_v6(c.routes@[1].destination, 0, 0)
    &&& c.routes@[1].gateway == IpAddress::V6(IP6_ADDR)
}

/// Builds the stub interface's configuration.
pub fn stub_config() -> (r: StubConfig)
    ensures
        is_stub_config(r),
{
    let ip4 = Ipv4Cidr::new(IP4_ADDR, 32).unwrap();
    let ip6 = Ipv6Cidr::new(IP6_ADDR, 128).unwrap();
    proof {
        lemma_zero_bits_clear(32);
        lemma_zero_bits_clear(128);
    }
    let all4 = Ipv4Cidr::new(0, 0).unwrap();
    let all6 = Ipv6Cidr::new(0, 0).unwrap();
    let mut addresses: Vec<Cidr> = Vec::new();
    addresses.push(Cidr::V4(ip4));
    addresses.push(Cidr::V6(ip6));
    let mut routes: Vec<Route> = Vec::new();
    routes.push(Route { destination: Cidr::V4(all4), gateway: IpAddress::V4(IP4_ADDR) });
    routes.push(Route { destination: Cidr::V6(all6), gateway: IpAddress::V6(IP6_ADDR) });
    StubConfig { any_ip: true, addresses, routes }
}

/// Under the stub configuration every address of either family has a route,
/// and that route leads to one of the interface's own addresses.
pub proof fn lemma_stub_routes_every_address(c: StubConfig, a: IpAddress)
    requires
        is_stub_config(c),
    ensures
        c.any_ip,
        exists|i: int|
            0 <= i < c.routes@.len() && (#[trigger] c.routes@[i]).destination.contains(a)
                && (c.routes@[i].gateway == IpAddress::V4(IP4_ADDR) || c.routes@[i].gateway
                == IpAddress::V6(IP6_ADDR)),
{
    match a {
        IpAddress::V4(_) => {
            assert(c.routes@[0].destination.contains(a));
        },
        IpAddress::V6(_) => {
            assert(c.routes@[1].destination.contains(a));
        },
    }
}

} // verus!
