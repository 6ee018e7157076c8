use firezone_client_core::model::{
    ResourceDescription, ResourceDescriptionCidr, ResourceDescriptionDns,
    ResourceDescriptionInternet, ResourceId, ResourceStatus, ResourceView, Site, SiteId,
};
use firezone_client_core::network::{Cidr, Ipv4Cidr, Ipv6Cidr};
use firezone_client_core::resource::Resource;

fn site(id: u128, name: &str) -> Site {
    Site { id: SiteId(id), name: name.to_string() }
}

fn v4(a: [u8; 4], prefix: u8) -> Cidr {
    Cidr::V4(Ipv4Cidr::new(u32::from_be_bytes(a), prefix).unwrap())
}

fn dns(id: u128, address: &str, name: &str, sites: Vec<Site>) -> Resource {
    Resource::from_description(ResourceDescription::Dns(ResourceDescriptionDns {
        id: ResourceId(id),
        address: address.to_string(),
        name: name.to_string(),
        address_description: None,
        sites,
    }))
    .unwrap()
}

fn cidr(id: u128, address: Cidr, name: &str, sites: Vec<Site>) -> Resource {
    Resource::from_description(ResourceDescription::Cidr(ResourceDescriptionCidr {
        id: ResourceId(id),
        address,
        name: name.to_string(),
        address_description: Some("office network".to_string()),
        sites,
    }))
    .unwrap()
}

fn internet(id: u128, name: &str, sites: Vec<Site>) -> Resource {
    Resource::from_description(ResourceDescription::Internet(ResourceDescriptionInternet {
        id: ResourceId(id),
        name: name.to_string(),
        sites,
    }))
    .unwrap()
}

#[test]
fn dns_description_end_to_end() {
    let r = dns(1, "github.com", "GitHub", vec![site(10, "HQ"), site(11, "Lab")]);
    assert_eq!(r.address_string(), Some("github.com".to_string()));
    assert_eq!(r.sites_string(), "HQ|Lab");
    assert_eq!(r.name(), "GitHub");
    assert_eq!(r.id(), ResourceId(1));
}

#[test]
fn cidr_prefix_change_is_different_address() {
    let old = cidr(2, v4([10, 0, 0, 0], 8), "Intranet", vec![]);
    let new = cidr(2, v4([10, 0, 0, 0], 16), "Intranet", vec![]);
    assert!(old.has_different_address(&new));
    assert!(new.has_different_address(&old));
}

#[test]
fn kind_change_is_different_address() {
    let a = dns(3, "example.com", "Example", vec![]);
    let b = cidr(3, v4([10, 0, 0, 0], 8), "Example", vec![]);
    assert!(a.has_different_address(&b));
    assert!(b.has_different_address(&a));
    let c = internet(3, "Internet", vec![]);
    assert!(a.has_different_address(&c));
    assert!(c.has_different_address(&b));
}

#[test]
fn same_address_is_not_different() {
    let a = dns(4, "example.com", "A", vec![site(1, "X")]);
    let b = dns(4, "example.com", "B", vec![]);
    assert!(!a.has_different_address(&b));
    let c = dns(4, "example.org", "A", vec![]);
    assert!(a.has_different_address(&c));
    let d = cidr(5, v4([192, 168, 1, 0], 24), "N", vec![]);
    let e = cidr(5, v4([192, 168, 1, 0], 24), "M", vec![site(2, "Y")]);
    assert!(!d.has_different_address(&e));
    let i1 = internet(6, "Internet", vec![]);
    let i2 = internet(7, "Other", vec![site(1, "Z")]);
    assert!(!i1.has_different_address(&i2));
}

#[test]
fn unknown_description_yields_nothing() {
    assert!(Resource::from_description(ResourceDescription::Unknown).is_none());
}

#[test]
fn description_fields_are_kept() {
    let sites = vec![site(2, "B"), site(1, "A")];
    let r = dns(9, "*.corp.example", "Corp", sites.clone());
    assert_eq!(r.id(), ResourceId(9));
    assert_eq!(r.name(), "Corp");
    match r.clone().into_dns() {
        Some(d) => {
            assert_eq!(d.sites, sites);
            assert_eq!(d.address, "*.corp.example");
            assert_eq!(d.address_description, None);
        }
        None => panic!("expected a DNS resource"),
    }
    let c = cidr(8, v4([10, 1, 0, 0], 16), "Lab net", sites.clone());
    assert_eq!(c.id(), ResourceId(8));
    assert_eq!(c.name(), "Lab net");
    assert!(c.into_dns().is_none());
    let i = internet(7, "Everything", sites.clone());
    assert_eq!(i.id(), ResourceId(7));
    match i {
        Resource::Internet(ref x) => {
            assert_eq!(x.name, "Everything");
            assert_eq!(x.sites, sites);
        }
        _ => panic!("expected the Internet resource"),
    }
}

#[test]
fn internet_name_is_fixed() {
    let a = internet(1, "Everything", vec![site(1, "HQ")]);
    let b = internet(2, "", vec![]);
    assert_eq!(a.name(), "Internet");
    assert_eq!(b.name(), "Internet");
}

#[test]
fn address_string_by_kind() {
    assert_eq!(internet(1, "I", vec![]).address_string(), None);
    assert_eq!(
        cidr(2, v4([10, 0, 0, 0], 8), "C", vec![]).address_string(),
        Some("10.0.0.0/8".to_string())
    );
    assert_eq!(
        dns(3, "gitlab.example.com", "D", vec![]).address_string(),
        Some("gitlab.example.com".to_string())
    );
}

#[test]
fn cidr_text_ipv4() {
    assert_eq!(v4([192, 168, 1, 0], 24).to_text(), "192.168.1.0/24");
    assert_eq!(v4([0, 0, 0, 0], 0).to_text(), "0.0.0.0/0");
    assert_eq!(v4([255, 255, 255, 255], 32).to_text(), "255.255.255.255/32");
}

#[test]
fn cidr_text_ipv6() {
    let n = Ipv6Cidr::new(0x2001_0db8_0000_0000_0000_0000_0000_0000, 32).unwrap();
    assert_eq!(Cidr::V6(n).to_text(), "2001:db8::/32");
    let r = cidr(4, Cidr::V6(n), "v6", vec![]);
    assert_eq!(r.address_string(), Some("2001:db8::/32".to_string()));
}

#[test]
fn cidr_rejects_host_bits_and_long_prefix() {
    assert!(Ipv4Cidr::new(u32::from_be_bytes([10, 0, 0, 1]), 8).is_none());
    assert!(Ipv4Cidr::new(u32::from_be_bytes([10, 0, 0, 1]), 32).is_some());
    assert!(Ipv4Cidr::new(0, 33).is_none());
    assert!(Ipv6Cidr::new(1, 127).is_none());
    assert!(Ipv6Cidr::new(1, 128).is_some());
    assert!(Ipv6Cidr::new(0, 129).is_none());
    let n = Ipv4Cidr::new(u32::from_be_bytes([172, 16, 0, 0]), 12).unwrap();
    assert_eq!(n.network_address(), u32::from_be_bytes([172, 16, 0, 0]));
    assert_eq!(n.netmask(), 12);
}

#[test]
fn sites_are_deduplicated_and_ordered() {
    let r = dns(
        1,
        "a.example",
        "A",
        vec![site(3, "Lab"), site(2, "HQ"), site(3, "Lab"), site(1, "HQ")],
    );
    let s = r.sites();
    assert_eq!(s, vec![site(1, "HQ"), site(2, "HQ"), site(3, "Lab")]);
    assert_eq!(r.sites_string(), "HQ|HQ|Lab");
}

#[test]
fn sites_string_ignores_order() {
    let a = dns(1, "x", "X", vec![site(1, "Lab"), site(2, "HQ"), site(3, "Berlin")]);
    let b = dns(1, "x", "X", vec![site(3, "Berlin"), site(1, "Lab"), site(2, "HQ")]);
    assert_eq!(a.sites_string(), b.sites_string());
    assert_eq!(a.sites_string(), "Berlin|HQ|Lab");
}

#[test]
fn sites_string_edge_cases() {
    assert_eq!(internet(1, "I", vec![]).sites_string(), "");
    assert_eq!(internet(1, "I", vec![site(5, "Solo")]).sites_string(), "Solo");
    let r = dns(1, "x", "X", vec![site(1, "Ab"), site(2, "A"), site(3, "B"), site(4, "")]);
    assert_eq!(r.sites_string(), "|A|Ab|B");
}

#[test]
fn status_projection_keeps_fields() {
    let r = cidr(2, v4([10, 0, 0, 0], 8), "Intranet", vec![site(1, "HQ")]);
    match r.clone().with_status(ResourceStatus::Online) {
        ResourceView::Cidr(v) => {
            assert_eq!(v.id, ResourceId(2));
            assert_eq!(v.address, v4([10, 0, 0, 0], 8));
            assert_eq!(v.name, "Intranet");
            assert_eq!(v.address_description, Some("office network".to_string()));
            assert_eq!(v.sites, vec![site(1, "HQ")]);
            assert_eq!(v.status, ResourceStatus::Online);
        }
        _ => panic!("expected a CIDR view"),
    }
    let a = dns(1, "github.com", "GitHub", vec![]);
    let (x, y) = (a.clone().with_status(ResourceStatus::Online), a.with_status(ResourceStatus::Offline));
    match (x, y) {
        (ResourceView::Dns(x), ResourceView::Dns(y)) => {
            assert_eq!(x.status, ResourceStatus::Online);
            assert_eq!(y.status, ResourceStatus::Offline);
            assert_eq!((x.id, x.address, x.name), (y.id, y.address, y.name));
        }
        _ => panic!("expected DNS views"),
    }
    match internet(3, "Everything", vec![]).with_status(ResourceStatus::Unknown) {
        ResourceView::Internet(v) => {
            assert_eq!(v.name, "Everything");
            assert_eq!(v.id, ResourceId(3));
            assert_eq!(v.status, ResourceStatus::Unknown);
        }
        _ => panic!("expected the Internet view"),
    }
}
