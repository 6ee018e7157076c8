use firezone_client_core::errors::{DeepLinkError, Error, IpcError};
use firezone_client_core::logging::{filter_directives, report_for, Level, Report};
use firezone_client_core::network::{Cidr, IpAddress};
use firezone_client_core::stub::{stub_config, IP4_ADDR, IP6_ADDR};

#[test]
fn stub_config_has_dummy_addresses_and_catch_all_routes() {
    let c = stub_config();
    assert!(c.any_ip);
    assert_eq!(c.addresses.len(), 2);
    assert_eq!(c.addresses[0].to_text(), "127.0.0.1/32");
    assert_eq!(c.addresses[1].to_text(), "::1/128");
    assert_eq!(c.routes.len(), 2);
    assert_eq!(c.routes[0].destination.to_text(), "0.0.0.0/0");
    assert_eq!(c.routes[0].gateway, IpAddress::V4(IP4_ADDR));
    assert_eq!(c.routes[1].destination.to_text(), "::/0");
    assert_eq!(c.routes[1].gateway, IpAddress::V6(IP6_ADDR));
}

#[test]
fn stub_routes_cover_probe_addresses() {
    let c = stub_config();
    let probe4 = u32::from_be_bytes([93, 184, 216, 34]);
    let probe6: u128 = 0x2606_2800_0220_0001_0248_1893_25c8_1946;
    match c.routes[0].destination {
        Cidr::V4(n) => {
            assert_eq!(n.netmask(), 0);
            let mask = if n.netmask() == 0 { 0 } else { u32::MAX << (32 - n.netmask()) };
            assert_eq!(probe4 & mask, n.network_address());
        }
        _ => panic!("expected an IPv4 route first"),
    }
    match c.routes[1].destination {
        Cidr::V6(n) => {
            assert_eq!(n.netmask(), 0);
            let mask = if n.netmask() == 0 { 0 } else { u128::MAX << (128 - n.netmask()) };
            assert_eq!(probe6 & mask, n.network_address());
        }
        _ => panic!("expected an IPv6 route second"),
    }
}

#[test]
fn user_friendly_messages() {
    assert_eq!(
        Error::ConnectToFirezoneFailed("timeout".to_string()).user_friendly_msg(),
        "Failed to connect to Firezone"
    );
    assert_eq!(
        Error::DeepLink(DeepLinkError::CantListen).user_friendly_msg(),
        "Firezone is already running. If it's not responding, force-stop it."
    );
    assert_eq!(
        Error::DeepLink(DeepLinkError::Other("bad pipe".to_string())).user_friendly_msg(),
        "bad pipe"
    );
    assert_eq!(
        Error::IpcNotFound.user_friendly_msg(),
        "Couldn't find Firezone IPC service. Is the service running?"
    );
    assert_eq!(Error::IpcClosed.user_friendly_msg(), "IPC connection closed");
    assert_eq!(Error::IpcRead.user_friendly_msg(), "IPC read failure");
    assert_eq!(
        Error::IpcServiceTerminating.user_friendly_msg(),
        "The Firezone IPC service is terminating. Please restart the GUI Client."
    );
    assert_eq!(Error::Logging("disk full".to_string()).user_friendly_msg(), "Logging error");
    assert_eq!(
        Error::PortalConnection("dns".to_string()).user_friendly_msg(),
        "Couldn't connect to the Firezone Portal. Are you connected to the Internet?"
    );
    assert_eq!(
        Error::WebViewNotInstalled.user_friendly_msg(),
        "Firezone cannot start because WebView2 is not installed. Follow the instructions at <https://www.firezone.dev/kb/client-apps/windows-client>."
    );
    assert_eq!(Error::Other("boom".to_string()).user_friendly_msg(), "boom");
}

#[test]
fn ipc_errors_convert() {
    assert_eq!(Error::from(IpcError::NotFound("no pipe".to_string())), Error::IpcNotFound);
    assert_eq!(
        Error::from(IpcError::Other("broken".to_string())),
        Error::Other("broken".to_string())
    );
}

#[test]
fn filter_directives_prepend_silencing() {
    assert_eq!(
        filter_directives("debug"),
        "netlink_proto=warn,os_info=warn,rustls=warn,debug"
    );
    assert_eq!(filter_directives(""), "netlink_proto=warn,os_info=warn,rustls=warn,");
}

#[test]
fn levels_map_to_reports() {
    assert_eq!(report_for(Level::Error), Report::Exception);
    assert_eq!(report_for(Level::Warn), Report::Event);
    assert_eq!(report_for(Level::Info), Report::Breadcrumb);
    assert_eq!(report_for(Level::Debug), Report::Ignore);
    assert_eq!(report_for(Level::Trace), Report::Ignore);
}
