//! Identifiers, sites, liveness status and the wire descriptions of resources.
use crate::network::Cidr;
use vstd::prelude::*;

verus! {

/// Identifier of a resource, stable across updates.
#[derive(Debug, Clone, Copy, PartialEq, Eq, Hash, PartialOrd, Ord, Structural)]
pub struct ResourceId(pub u128);

/// Identifier of a site.
#[derive(Debug, Clone, Copy, PartialEq, Eq, Hash, PartialOrd, Ord, Structural)]
pub struct SiteId(pub u128);

/// A named place that resources are grouped under, for display.
#[derive(Debug, Clone, Eq, Hash)]
pub struct Site {
    pub id: SiteId,
    pub name: String,
}

impl View for Site {
    /// The name first, then the identifier: the order sites are listed in.
    type V = (Seq<char>, u128);

    open spec fn view(&self) -> (Seq<char>, u128) {
        (self.name@, self.id.0)
    }
}

impl PartialEq for Site {
    fn eq(&self, other: &Site) -> (r: bool) {
        self.id == other.id && self.name == other.name
    }
}

impl vstd::std_specs::cmp::PartialEqSpecImpl for Site {
    open spec fn obeys_eq_spec() -> bool {
        true
    }

    open spec fn eq_spec(&self, other: &Site) -> bool {
        self@ == other@
    }
}

/// Liveness of a resource, as reported by an outside prober.
#[derive(Debug, Clone, Copy, PartialEq, Eq, Hash, PartialOrd, Ord, Structural)]
pub enum ResourceStatus {
    Unknown,
    Online,
    Offline,
}

/// Wire description of a resource reached by domain name.
#[derive(Debug, Clone, PartialEq, Eq, Hash)]
pub struct ResourceDescriptionDns {
    pub id: ResourceId,
    pub address: String,
    pub name: String,
    pub address_description: Option<String>,
    pub sites: Vec<Site>,
}

/// Wire description of a resource covering an IP network.
#[derive(Debug, Clone, PartialEq, Eq, Hash)]
pub struct ResourceDescriptionCidr {
    pub id: ResourceId,
    pub address: Cidr,
    pub name: String,
    pub address_description: Option<String>,
    pub sites: Vec<Site>,
}

/// Wire description of the resource that covers all other traffic.
#[derive(Debug, Clone, PartialEq, Eq, Hash)]
pub struct ResourceDescriptionInternet {
    pub id: ResourceId,
    pub name: String,
    pub sites: Vec<Site>,
}

/// A resource description as the control plane sends it; `Unknown` stands for
/// any kind that this client does not know.
#[derive(Debug, Clone, PartialEq, Eq, Hash)]
pub enum ResourceDescription {
    Dns(ResourceDescriptionDns),
    Cidr(ResourceDescriptionCidr),
    Internet(ResourceDescriptionInternet),
    Unknown,
}

/// A DNS resource together with its status, for display.
#[derive(Debug, Clone, PartialEq, Eq, Hash)]
pub struct DnsResourceView {
    pub id: ResourceId,
    pub address: String,
    pub name: String,
    pub address_description: Option<String>,
    pub sites: Vec<Site>,
    pub status: ResourceStatus,
}

/// A CIDR resource together with its status, for display.
#[derive(Debug, Clone, PartialEq, Eq, Hash)]
pub struct CidrResourceView {
    pub id: ResourceId,
    pub address: Cidr,
    pub name: String,
    pub address_description: Option<String>,
    pub sites: Vec<Site>,
    pub status: ResourceStatus,
}

/// The Internet resource together with its status, for display.
#[derive(Debug, Clone, PartialEq, Eq, Hash)]
pub struct InternetResourceView {
    pub name: String,
    pub id: ResourceId,
    pub sites: Vec<Site>,
    pub status: ResourceStatus,
}

/// A resource together with its status, for display.
#[derive(Debug, Clone, PartialEq, Eq, Hash)]
pub enum ResourceView {
    Dns(DnsResourceView),
    Cidr(CidrResourceView),
    Internet(InternetResourceView),
}

} // verus!
