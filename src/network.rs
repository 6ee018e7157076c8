//! IP networks (base address and prefix length) held as plain integers.
use vstd::prelude::*;

verus! {

/// `true` when the lowest `n` bits of `a` are all zero.
pub open spec fn low_bits_clear(a: nat, n: nat) -> bool
    decreases n,
{
    n == 0 || (a % 2 == 0 && low_bits_clear(a / 2, (n - 1) as nat))
}

/// Zero has no bit set.
pub proof fn lemma_zero_bits_clear(n: nat)
    ensures
        low_bits_clear(0, n),
    decreases n,
{
    if n > 0 {
        lemma_zero_bits_clear((n - 1) as nat);
    }
}

/// Bit `i` of a `len`-bit address, counted from the most significant end.
pub open spec fn top_bit(a: nat, len: nat, i: nat) -> nat
    decreases len,
{
    if len == 0 {
        0
    } else if i + 1 == len {
        a % 2
    } else {
        top_bit(a / 2, (len - 1) as nat, i)
    }
}

/// `true` when the first `prefix` bits of two `len`-bit addresses agree.
pub open spec fn same_prefix(a: nat, b: nat, len: nat, prefix: nat) -> bool {
    forall|i: nat| i < prefix ==> #[trigger] top_bit(a, len, i) == top_bit(b, len, i)
}

/// The decimal digit `d` as a character.
pub open spec fn digit_char(d: nat) -> char {
    seq!['0', '1', '2', '3', '4', '5', '6', '7', '8', '9'][d as int]
}

/// The decimal notation of `n`, without leading zeros.
pub open spec fn decimal(n: nat) -> Seq<char>
    decreases n,
{
    if n < 10 {
        seq![digit_char(n)]
    } else {
        decimal(n / 10).push(digit_char(n % 10))
    }
}

/// Dotted-quad notation of an IPv4 address, most significant octet first.
pub open spec fn dotted_quad(a: u32) -> Seq<char> {
    decimal((a as nat / 0x1000000) % 256) + seq!['.'] + decimal((a as nat / 0x10000) % 256)
        + seq!['.'] + decimal((a as nat / 0x100) % 256) + seq!['.'] + decimal(a as nat % 256)
}

/// CIDR notation of an IPv4 network: `a.b.c.d/p`.
pub open spec fn ipv4_network_text(a: u32, prefix: u8) -> Seq<char> {
    dotted_quad(a) + seq!['/'] + decimal(prefix as nat)
}

/// Text of an IPv6 network as `ip_network` formats it (address, `/`, prefix).
pub uninterp spec fn ipv6_network_text(a: u128, prefix: u8) -> Seq<char>;

/// An IPv4 network: its base address has every host bit clear.
#[derive(Debug, Clone, Copy, PartialEq, Eq, Hash, Structural)]
pub struct Ipv4Cidr {
    addr: u32,
    prefix: u8,
}

/// An IPv6 network: its base address has every host bit clear.
#[derive(Debug, Clone, Copy, PartialEq, Eq, Hash, Structural)]
pub struct Ipv6Cidr {
    addr: u128,
    prefix: u8,
}

/// An IP network of either family.
#[derive(Debug, Clone, Copy, PartialEq, Eq, Hash, Structural)]
pub enum Cidr {
    V4(Ipv4Cidr),
    V6(Ipv6Cidr),
}

/// A single IP address of either family.
#[derive(Debug, Clone, Copy, PartialEq, Eq, Hash, Structural)]
pub enum IpAddress {
    V4(u32),
    V6(u128),
}

/// Whether the lowest `n` bits of `a` are clear, for `n <= 128`.
fn host_bits_clear(a: u128, n: u8) -> (r: bool)
    ensures
        r == low_bits_clear(a as nat, n as nat),
{
    let mut rest: u128 = a;
    let mut i: u8 = 0;
    while i < n
        invariant
            i <= n,
            low_bits_clear(a as nat, n as nat) == low_bits_clear(rest as nat, (n - i) as nat),
        decreases n - i,
    {
        if rest % 2 != 0 {
            return false;
        }
        rest = rest / 2;
        i = i + 1;
    }
    true
}

impl Ipv4Cidr {
    #[verifier::type_invariant]
    spec fn inv(self) -> bool {
        self.prefix <= 32 && low_bits_clear(self.addr as nat, (32 - self.prefix) as nat)
    }

    /// The base address.
    pub closed spec fn spec_addr(self) -> u32 {
        self.addr
    }

    /// The prefix length.
    pub closed spec fn spec_prefix(self) -> u8 {
        self.prefix
    }

    /// Builds the network `addr/prefix`; `None` when the prefix exceeds 32 or a
    /// host bit of `addr` is set.
    pub fn new(addr: u32, prefix: u8) -> (r: Option<Ipv4Cidr>)
        ensures
            r is Some <==> (prefix <= 32 && low_bits_clear(addr as nat, (32 - prefix) as nat)),
            r matches Some(n) ==> n.spec_addr() == addr && n.spec_prefix() == prefix,
    {
        if prefix > 32 || !host_bits_clear(addr as u128, 32 - prefix) {
            None
        } else {
            Some(Ipv4Cidr { addr, prefix })
        }
    }

    pub fn network_address(&self) -> (r: u32)
        ensures
            r == self.spec_addr(),
    {
        self.addr
    }

    pub fn netmask(&self) -> (r: u8)
        ensures
            r == self.spec_prefix(),
    {
        self.prefix
    }

}

impl Ipv6Cidr {
    #[verifier::type_invariant]
    spec fn inv(self) -> bool {
        self.prefix <= 128 && low_bits_clear(self.addr as nat, (128 - self.prefix) as nat)
    }

    /// The base address.
    pub closed spec fn spec_addr(self) -> u128 {
        self.addr
    }

    /// The prefix length.
    pub closed spec fn spec_prefix(self) -> u8 {
        self.prefix
    }

    /// Builds the network `addr/prefix`; `None` when the prefix exceeds 128 or a
    /// host bit of `addr` is set.
    pub fn new(addr: u128, prefix: u8) -> (r: Option<Ipv6Cidr>)
        ensures
            r is Some <==> (prefix <= 128 && low_bits_clear(addr as nat, (128 - prefix) as nat)),
            r matches Some(n) ==> n.spec_addr() == addr && n.spec_prefix() == prefix,
    {
        if prefix > 128 || !host_bits_clear(addr, 128 - prefix) {
            None
        } else {
            Some(Ipv6Cidr { addr, prefix })
        }
    }

    pub fn network_address(&self) -> (r: u128)
        ensures
            r == self.spec_addr(),
    {
        self.addr
    }

    pub fn netmask(&self) -> (r: u8)
        ensures
            r == self.spec_prefix(),
    {
        self.prefix
    }

}

/// Relies on ip_network's `Ipv4Network::new` and its `Display`, which writes the
/// network address (std's dotted quad), a slash and the netmask.
#[verifier::external_body]
fn ipv4_network_to_string(addr: u32, prefix: u8) -> (r: String)
    requires
        prefix <= 32,
        low_bits_clear(addr as nat, (32 - prefix) as nat),
    ensures
        r@ == ipv4_network_text(addr, prefix),
{
    match ip_network::Ipv4Network::new(addr.into(), prefix) {
        Ok(n) => n.to_string(),
        Err(e) => e.to_string(),
    }
}

/// Relies on ip_network's `Ipv6Network::new` and its `Display`: the text depends
/// on the address and the netmask alone.
#[verifier::external_body]
fn ipv6_network_to_string(addr: u128, prefix: u8) -> (r: String)
    requires
        prefix <= 128,
        low_bits_clear(addr as nat, (128 - prefix) as nat),
    ensures
        r@ == ipv6_network_text(addr, prefix),
{
    match ip_network::Ipv6Network::new(addr.into(), prefix) {
        Ok(n) => n.to_string(),
        Err(e) => e.to_string(),
    }
}

impl Cidr {
    /// The network in CIDR notation.
    pub open spec fn text(self) -> Seq<char> {
        match self {
            Cidr::V4(n) => ipv4_network_text(n.spec_addr(), n.spec_prefix()),
            Cidr::V6(n) => ipv6_network_text(n.spec_addr(), n.spec_prefix()),
        }
    }

    /// `true` when `a` lies inside this network.
    pub open spec fn contains(self, a: IpAddress) -> bool {
        match (self, a) {
            (Cidr::V4(n), IpAddress::V4(x)) => same_prefix(
                n.spec_addr() as nat,
                x as nat,
                32,
                n.spec_prefix() as nat,
            ),
            (Cidr::V6(n), IpAddress::V6(x)) => same_prefix(
                n.spec_addr() as nat,
                x as nat,
                128,
                n.spec_prefix() as nat,
            ),
            _ => false,
        }
    }

    /// Formats the network in CIDR notation (`10.0.0.0/8`, `2001:db8::/32`).
    pub fn to_text(&self) -> (r: String)
        ensures
            r@ == self.text(),
    {
        match self {
            Cidr::V4(n) => {
                proof {
                    use_type_invariant(n);
                }
                ipv4_network_to_string(n.network_address(), n.netmask())
            },
            Cidr::V6(n) => {
                proof {
                    use_type_invariant(n);
                }
                ipv6_network_to_string(n.network_address(), n.netmask())
            },
        }
    }
}

} // verus!
