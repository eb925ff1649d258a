use pumpkin_wasm_host::socket_policy::{
    IpAddr, NetworkPermission, SocketAddr, SocketAddrUse, SocketPolicy,
    socket_policy_for_permissions,
};

const PORT: u16 = 25_565;

fn addr(ip: IpAddr) -> SocketAddr {
    SocketAddr::new(ip, PORT)
}

fn implicit_addr(ip: IpAddr) -> SocketAddr {
    SocketAddr::new(ip, 0)
}

const V4_UNSPECIFIED: IpAddr = IpAddr::V4([0, 0, 0, 0]);
const V6_UNSPECIFIED: IpAddr = IpAddr::V6([0, 0, 0, 0, 0, 0, 0, 0]);
const V4_LOCALHOST: IpAddr = IpAddr::V4([127, 0, 0, 1]);

#[test]
fn tcp_connect_allows_implicit_bind_but_not_listen() {
    let unrestricted = SocketPolicy {
        tcp_connect: true,
        ..SocketPolicy::default()
    };
    let loopback = SocketPolicy {
        loopback_only: true,
        ..unrestricted
    };
    let wildcard_v4 = implicit_addr(V4_UNSPECIFIED);
    let wildcard_v6 = implicit_addr(V6_UNSPECIFIED);
    let explicit_wildcard = addr(V4_UNSPECIFIED);
    let loopback_v4 = addr(V4_LOCALHOST);
    let public = addr(IpAddr::V4([192, 0, 2, 1]));

    assert!(unrestricted.allows(wildcard_v4, SocketAddrUse::TcpBind));
    assert!(unrestricted.allows(wildcard_v6, SocketAddrUse::TcpBind));
    assert!(!unrestricted.allows(explicit_wildcard, SocketAddrUse::TcpBind));
    assert!(unrestricted.allows(public, SocketAddrUse::TcpConnect));
    assert!(!unrestricted.allows(wildcard_v4, SocketAddrUse::TcpListen));
    assert!(!unrestricted.allows(wildcard_v4, SocketAddrUse::TcpAccept));

    assert!(loopback.allows(wildcard_v4, SocketAddrUse::TcpBind));
    assert!(loopback.allows(loopback_v4, SocketAddrUse::TcpConnect));
    assert!(!loopback.allows(public, SocketAddrUse::TcpConnect));
    assert!(!loopback.allows(wildcard_v4, SocketAddrUse::TcpListen));
}

#[test]
fn udp_send_allows_implicit_bind_but_not_receive() {
    let unrestricted = SocketPolicy {
        udp_send: true,
        ..SocketPolicy::default()
    };
    let loopback = SocketPolicy {
        loopback_only: true,
        ..unrestricted
    };
    let wildcard = implicit_addr(V4_UNSPECIFIED);
    let explicit_wildcard = addr(V4_UNSPECIFIED);
    let loopback_addr = addr(V4_LOCALHOST);
    let public = addr(IpAddr::V4([192, 0, 2, 1]));

    assert!(unrestricted.allows(wildcard, SocketAddrUse::UdpBind));
    assert!(!unrestricted.allows(explicit_wildcard, SocketAddrUse::UdpBind));
    assert!(unrestricted.allows(public, SocketAddrUse::UdpSend));
    assert!(!unrestricted.allows(public, SocketAddrUse::UdpReceive));

    assert!(loopback.allows(wildcard, SocketAddrUse::UdpBind));
    assert!(loopback.allows(loopback_addr, SocketAddrUse::UdpSend));
    assert!(!loopback.allows(public, SocketAddrUse::UdpSend));
}

#[test]
fn network_outbound_supports_udp_replies_without_granting_explicit_bind() {
    let outbound = socket_policy_for_permissions(&[NetworkPermission::Outbound], false);
    let outgoing_datagram =
        socket_policy_for_permissions(&[NetworkPermission::UdpOutgoingDatagram], false);
    let wildcard = implicit_addr(V4_UNSPECIFIED);
    let explicit_wildcard = addr(V4_UNSPECIFIED);
    let public = addr(IpAddr::V4([192, 0, 2, 1]));

    assert!(outbound.allows(public, SocketAddrUse::TcpConnect));
    assert!(outbound.allows(public, SocketAddrUse::UdpSend));
    assert!(outbound.allows(public, SocketAddrUse::UdpReceive));
    assert!(outbound.allows(wildcard, SocketAddrUse::TcpBind));
    assert!(outbound.allows(wildcard, SocketAddrUse::UdpBind));
    assert!(!outbound.allows(explicit_wildcard, SocketAddrUse::TcpBind));
    assert!(!outbound.allows(explicit_wildcard, SocketAddrUse::UdpBind));

    assert!(outgoing_datagram.allows(public, SocketAddrUse::UdpSend));
    assert!(!outgoing_datagram.allows(public, SocketAddrUse::UdpReceive));
}

#[test]
fn bind_only_permissions_do_not_grant_outbound_access() {
    let bind_only = SocketPolicy {
        tcp_bind: true,
        udp_bind: true,
        udp_receive: true,
        ..SocketPolicy::default()
    };
    let loopback_bind_only = SocketPolicy {
        loopback_only: true,
        ..bind_only
    };
    let wildcard = addr(V4_UNSPECIFIED);
    let loopback = addr(V4_LOCALHOST);

    assert!(bind_only.allows(wildcard, SocketAddrUse::TcpBind));
    assert!(bind_only.allows(wildcard, SocketAddrUse::TcpListen));
    assert!(!bind_only.allows(loopback, SocketAddrUse::TcpConnect));
    assert!(bind_only.allows(wildcard, SocketAddrUse::UdpBind));
    assert!(bind_only.allows(loopback, SocketAddrUse::UdpReceive));
    assert!(!bind_only.allows(loopback, SocketAddrUse::UdpSend));

    assert!(!loopback_bind_only.allows(wildcard, SocketAddrUse::TcpBind));
    assert!(loopback_bind_only.allows(loopback, SocketAddrUse::TcpBind));
    assert!(!loopback_bind_only.allows(wildcard, SocketAddrUse::UdpBind));
    assert!(loopback_bind_only.allows(loopback, SocketAddrUse::UdpBind));
}

#[test]
fn empty_socket_policy_denies_every_operation() {
    let policy = SocketPolicy::default();
    let address = addr(V4_LOCALHOST);
    for reason in [
        SocketAddrUse::TcpConnect,
        SocketAddrUse::TcpBind,
        SocketAddrUse::TcpListen,
        SocketAddrUse::TcpAccept,
        SocketAddrUse::UdpBind,
        SocketAddrUse::UdpSend,
        SocketAddrUse::UdpReceive,
    ] {
        assert!(!policy.allows(address, reason));
    }
}

#[test]
fn ipv6_loopback_is_recognised() {
    let policy = SocketPolicy {
        tcp_connect: true,
        loopback_only: true,
        ..SocketPolicy::default()
    };
    let v6_loopback = addr(IpAddr::V6([0, 0, 0, 0, 0, 0, 0, 1]));
    let v6_public = addr(IpAddr::V6([0x2001, 0xdb8, 0, 0, 0, 0, 0, 1]));
    assert!(policy.allows(v6_loopback, SocketAddrUse::TcpConnect));
    assert!(!policy.allows(v6_public, SocketAddrUse::TcpConnect));
    assert!(policy.allows(addr(IpAddr::V4([127, 8, 9, 10])), SocketAddrUse::TcpConnect));
}

#[test]
fn derived_policy_fields() {
    let tcp = socket_policy_for_permissions(&[NetworkPermission::Tcp], true);
    assert!(tcp.tcp_connect && tcp.tcp_bind && !tcp.udp_send && !tcp.udp_bind);
    assert!(!tcp.udp_receive && tcp.loopback_only);
    let udp_bind = socket_policy_for_permissions(&[NetworkPermission::UdpBind], false);
    assert!(udp_bind.udp_bind && udp_bind.udp_receive && !udp_bind.udp_send);
    let none = socket_policy_for_permissions(&[], false);
    assert!(!none.tcp_connect && !none.tcp_bind && !none.udp_send && !none.udp_receive);
}
