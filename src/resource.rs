//! The client's model of resources: what a destination is, how it is shown, and
//! when a change of it invalidates routes.
use crate::model::{
    CidrResourceView, DnsResourceView, InternetResourceView, ResourceDescription,
    ResourceDescriptionCidr, ResourceDescriptionDns, ResourceDescriptionInternet, ResourceId,
    ResourceStatus, ResourceView, Site,
};
use crate::network::Cidr;
use crate::sites::{join_site_names, ordered_sites, site_set, site_views, sites_text, sorted_sites};
use vstd::prelude::*;

verus! {

broadcast use vstd::string::group_string_axioms;

/// A destination the tunnel can route traffic to.
#[derive(Debug, Clone, PartialEq, Eq, Hash)]
pub enum Resource {
    Dns(DnsResource),
    Cidr(CidrResource),
    Internet(InternetResource),
}

/// A resource reached by domain name.
#[derive(Debug, Clone, PartialEq, Eq, Hash)]
pub struct DnsResource {
    /// Resource's id.
    pub id: ResourceId,
    /// Internal resource's domain name.
    pub address: String,
    /// Name of the resource, used only for display.
    pub name: String,
    pub address_description: Option<String>,
    pub sites: Vec<Site>,
}

/// A resource that maps to a CIDR.
#[derive(Debug, Clone, PartialEq, Eq, Hash)]
pub struct CidrResource {
    /// Resource's id.
    pub id: ResourceId,
    /// CIDR that this resource points to.
    pub address: Cidr,
    /// Name of the resource, used only for display.
    pub name: String,
    pub address_description: Option<String>,
    pub sites: Vec<Site>,
}

/// The resource that covers all traffic not otherwise matched.
#[derive(Debug, Clone, PartialEq, Eq, Hash)]
pub struct InternetResource {
    /// Name of the resource, used only for display.
    pub name: String,
    /// Resource's id.
    pub id: ResourceId,
    /// Sites for the internet resource.
    pub sites: Vec<Site>,
}

/// The name every Internet resource is shown under.
pub open spec fn internet_name() -> Seq<char> {
    "Internet"@
}

impl Resource {
    /// The resource that a description of a known kind yields.
    pub open spec fn spec_from_description(d: ResourceDescription) -> Option<Resource> {
        match d {
            ResourceDescription::Dns(i) => Some(
                Resource::Dns(
                    DnsResource {
                        id: i.id,
                        address: i.address,
                        name: i.name,
                        address_description: i.address_description,
                        sites: i.sites,
                    },
                ),
            ),
            ResourceDescription::Cidr(i) => Some(
                Resource::Cidr(
                    CidrResource {
                        id: i.id,
                        address: i.address,
                        name: i.name,
                        address_description: i.address_description,
                        sites: i.sites,
                    },
                ),
            ),
            ResourceDescription::Internet(i) => Some(
                Resource::Internet(InternetResource { name: i.name, id: i.id, sites: i.sites }),
            ),
            ResourceDescription::Unknown => None,
        }
    }

    pub open spec fn spec_id(self) -> ResourceId {
        match self {
            Resource::Dns(r) => r.id,
            Resource::Cidr(r) => r.id,
            Resource::Internet(r) => r.id,
        }
    }

    /// The display name: the stored one, or `Internet` for the Internet resource.
    pub open spec fn spec_name(self) -> Seq<char> {
        match self {
            Resource::Dns(r) => r.name@,
            Resource::Cidr(r) => r.name@,
            Resource::Internet(_) => internet_name(),
        }
    }

    /// The sites as stored, in the order they came.
    pub open spec fn spec_sites(self) -> Seq<Site> {
        match self {
            Resource::Dns(r) => r.sites@,
            Resource::Cidr(r) => r.sites@,
            Resource::Internet(r) => r.sites@,
        }
    }

    /// The address as text; none for the Internet resource.
    pub open spec fn spec_address_string(self) -> Option<Seq<char>> {
        match self {
            Resource::Dns(r) => Some(r.address@),
            Resource::Cidr(r) => Some(r.address.text()),
            Resource::Internet(_) => None,
        }
    }

    /// Whether a change from `self` to `other` changes the address: within a
    /// kind, when the addresses differ; across kinds, always.
    pub open spec fn spec_has_different_address(self, other: Resource) -> bool {
        match (self, other) {
            (Resource::Dns(a), Resource::Dns(b)) => a.address@ != b.address@,
            (Resource::Cidr(a), Resource::Cidr(b)) => a.address != b.address,
            (Resource::Internet(_), Resource::Internet(_)) => false,
            _ => true,
        }
    }

    /// Builds the resource for a description; `None` for a kind this client
    /// does not know.
    pub fn from_description(resource: ResourceDescription) -> (r: Option<Resource>)
        ensures
            r == Resource::spec_from_description(resource),
            r is None <==> resource is Unknown,
    {
        match resource {
            ResourceDescription::Dns(i) => Some(Resource::Dns(DnsResource::from_description(i))),
            ResourceDescription::Cidr(i) => Some(
                Resource::Cidr(CidrResource::from_description(i)),
            ),
            ResourceDescription::Internet(i) => Some(
                Resource::Internet(InternetResource::from_description(i)),
            ),
            ResourceDescription::Unknown => None,
        }
    }

    /// The DNS resource inside, if this is one.
    pub fn into_dns(self) -> (r: Option<DnsResource>)
        ensures
            match self {
                Resource::Dns(d) => r == Some(d),
                _ => r is None,
            },
    {
        match self {
            Resource::Dns(d) => Some(d),
            Resource::Cidr(_) | Resource::Internet(_) => None,
        }
    }

    /// The address as text: the domain for DNS, the network in CIDR notation for
    /// CIDR, none for the Internet resource.
    pub fn address_string(&self) -> (r: Option<String>)
        ensures
            r is None <==> self is Internet,
            match r {
                Some(s) => self.spec_address_string() == Some(s@),
                None => self.spec_address_string() is None,
            },
    {
        match self {
            Resource::Dns(d) => Some(d.address.clone()),
            Resource::Cidr(c) => Some(c.address.to_text()),
            Resource::Internet(_) => None,
        }
    }

    /// The names of the distinct sites, in site order, joined with `|`.
    pub fn sites_string(&self) -> (r: String)
        ensures
            r@ == sites_text(self.spec_sites()),
    {
        let sites = self.sites();
        join_site_names(&sites)
    }

    pub fn id(&self) -> (r: ResourceId)
        ensures
            r == self.spec_id(),
    {
        match self {
            Resource::Dns(r) => r.id,
            Resource::Cidr(r) => r.id,
            Resource::Internet(r) => r.id,
        }
    }

    /// The distinct sites, ordered by name and then by identifier.
    pub fn sites(&self) -> (r: Vec<Site>)
        ensures
            site_views(r@) == ordered_sites(site_set(self.spec_sites())),
    {
        match self {
            Resource::Dns(r) => sorted_sites(&r.sites),
            Resource::Cidr(r) => sorted_sites(&r.sites),
            Resource::Internet(r) => sorted_sites(&r.sites),
        }
    }

    /// What the GUI clients show as the display name, e.g. `Firezone GitHub`.
    pub fn name(&self) -> (r: &str)
        ensures
            r@ == self.spec_name(),
            self is Internet ==> r@ == internet_name(),
    {
        match self {
            Resource::Dns(r) => r.name.as_str(),
            Resource::Cidr(r) => r.name.as_str(),
            Resource::Internet(_) => "Internet",
        }
    }

    /// Whether replacing `self` by `other` changes the address, so that routes
    /// depending on it must be rebuilt.
    pub fn has_different_address(&self, other: &Resource) -> (r: bool)
        ensures
            r == self.spec_has_different_address(*other),
    {
        match (self, other) {
            (Resource::Dns(dns_a), Resource::Dns(dns_b)) => !(dns_a.address == dns_b.address),
            (Resource::Cidr(cidr_a), Resource::Cidr(cidr_b)) => cidr_a.address != cidr_b.address,
            (Resource::Internet(_), Resource::Internet(_)) => false,
            _ => true,
        }
    }

    /// The resource with a status attached, for display.
    pub fn with_status(self, status: ResourceStatus) -> (r: ResourceView)
        ensures
            match (self, r) {
                (Resource::Dns(a), ResourceView::Dns(b)) => b == a.spec_with_status(status),
                (Resource::Cidr(a), ResourceView::Cidr(b)) => b == a.spec_with_status(status),
                (Resource::Internet(a), ResourceView::Internet(b)) => b == a.spec_with_status(
                    status,
                ),
                _ => false,
            },
    {
        match self {
            Resource::Dns(r) => ResourceView::Dns(r.with_status(status)),
            Resource::Cidr(r) => ResourceView::Cidr(r.with_status(status)),
            Resource::Internet(r) => ResourceView::Internet(r.with_status(status)),
        }
    }
}

impl CidrResource {
    pub fn from_description(resource: ResourceDescriptionCidr) -> (r: Self)
        ensures
            r == (CidrResource {
                id: resource.id,
                address: resource.address,
                name: resource.name,
                address_description: resource.address_description,
                sites: resource.sites,
            }),
    {
        Self {
            id: resource.id,
            address: resource.address,
            name: resource.name,
            address_description: resource.address_description,
            sites: resource.sites,
        }
    }

    pub open spec fn spec_with_status(self, status: ResourceStatus) -> CidrResourceView {
        CidrResourceView {
            id: self.id,
            address: self.address,
            name: self.name,
            address_description: self.address_description,
            sites: self.sites,
            status,
        }
    }

    pub fn with_status(self, status: ResourceStatus) -> (r: CidrResourceView)
        ensures
            r == self.spec_with_status(status),
    {
        CidrResourceView {
            id: self.id,
            address: self.address,
            name: self.name,
            address_description: self.address_description,
            sites: self.sites,
            status,
        }
    }
}

impl InternetResource {
    pub fn from_description(resource: ResourceDescriptionInternet) -> (r: Self)
        ensures
            r == (InternetResource { name: resource.name, id: resource.id, sites: resource.sites }),
    {
        Self { name: resource.name, id: resource.id, sites: resource.sites }
    }

    pub open spec fn spec_with_status(self, status: ResourceStatus) -> InternetResourceView {
        InternetResourceView { name: self.name, id: self.id, sites: self.sites, status }
    }

    pub fn with_status(self, status: ResourceStatus) -> (r: InternetResourceView)
        ensures
            r == self.spec_with_status(status),
    {
        InternetResourceView { name: self.name, id: self.id, sites: self.sites, status }
    }
}

impl DnsResource {
    pub fn from_description(resource: ResourceDescriptionDns) -> (r: Self)
        ensures
            r == (DnsResource {
                id: resource.id,
                address: resource.address,
                name: resource.name,
                address_description: resource.address_description,
                sites: resource.sites,
            }),
    {
        Self {
            id: resource.id,
            address: resource.address,
            name: resource.name,
            address_description: resource.address_description,
            sites: resource.sites,
        }
    }

    pub open spec fn spec_with_status(self, status: ResourceStatus) -> DnsResourceView {
        DnsResourceView {
            id: self.id,
            address: self.address,
            name: self.name,
            address_description: self.address_description,
            sites: self.sites,
            status,
        }
    }

    pub fn with_status(self, status: ResourceStatus) -> (r: DnsResourceView)
        ensures
            r == self.spec_with_status(status),
    {
        DnsResourceView {
            id: self.id,
            address: self.address,
            name: self.name,
            address_description: self.address_description,
            sites: self.sites,
            status,
        }
    }
}

/// A description of a known kind yields a resource with the same identifier and
/// sites, and the same name (an Internet resource keeps the name in its field,
/// though it is displayed as `Internet`).
pub proof fn lemma_from_description_keeps_fields(d: ResourceDescription)
    requires
        !(d is Unknown),
    ensures
        Resource::spec_from_description(d) is Some,
        ({
            let r = Resource::spec_from_description(d).unwrap();
            match d {
                ResourceDescription::Dns(i) => r.spec_id() == i.id && r.spec_name() == i.name@
                    && r.spec_sites() == i.sites@,
                ResourceDescription::Cidr(i) => r.spec_id() == i.id && r.spec_name() == i.name@
                    && r.spec_sites() == i.sites@,
                ResourceDescription::Internet(i) => r.spec_id() == i.id && r.spec_sites()
                    == i.sites@ && r->Internet_0.name == i.name,
                ResourceDescription::Unknown => false,
            }
        }),
{
}

/// Address-change detection is symmetric between two resources of one kind, and
/// always reports a change between resources of different kinds.
pub proof fn lemma_has_different_address_symmetric(a: Resource, b: Resource)
    ensures
        ((a is Dns && b is Dns) || (a is Cidr && b is Cidr) || (a is Internet && b is Internet))
            ==> a.spec_has_different_address(b) == b.spec_has_different_address(a),
        ((a is Dns) != (b is Dns) || (a is Cidr) != (b is Cidr)) ==> a.spec_has_different_address(b),
{
}

} // verus!
