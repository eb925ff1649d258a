//! Which socket operations a plugin may perform, derived from its network
//! permissions.

use vstd::prelude::*;

verus! {

/// An IP address: four octets, or eight 16-bit segments.
#[derive(Clone, Copy, Debug, PartialEq, Eq)]
pub enum IpAddr {
    V4([u8; 4]),
    V6([u16; 8]),
}

impl IpAddr {
    /// The wildcard address: `0.0.0.0` or `::`.
    pub open spec fn spec_is_unspecified(&self) -> bool {
        match self {
            IpAddr::V4(o) => forall|i: int| 0 <= i < 4 ==> o@[i] == 0,
            IpAddr::V6(s) => forall|i: int| 0 <= i < 8 ==> s@[i] == 0,
        }
    }

    /// A loopback address: `127.0.0.0/8` or `::1`.
    pub open spec fn spec_is_loopback(&self) -> bool {
        match self {
            IpAddr::V4(o) => o@[0] == 127,
            IpAddr::V6(s) => (forall|i: int| 0 <= i < 7 ==> s@[i] == 0) && s@[7] == 1,
        }
    }

    /// Whether this is the wildcard address.
    #[verifier::when_used_as_spec(spec_is_unspecified)]
    pub fn is_unspecified(&self) -> (res: bool)
        ensures
            res == self.spec_is_unspecified(),
    {
        match self {
            IpAddr::V4(o) => o[0] == 0 && o[1] == 0 && o[2] == 0 && o[3] == 0,
            IpAddr::V6(s) => s[0] == 0 && s[1] == 0 && s[2] == 0 && s[3] == 0 && s[4] == 0 && s[5]
                == 0 && s[6] == 0 && s[7] == 0,
        }
    }

    /// Whether this is a loopback address.
    #[verifier::when_used_as_spec(spec_is_loopback)]
    pub fn is_loopback(&self) -> (res: bool)
        ensures
            res == self.spec_is_loopback(),
    {
        match self {
            IpAddr::V4(o) => o[0] == 127,
            IpAddr::V6(s) => s[0] == 0 && s[1] == 0 && s[2] == 0 && s[3] == 0 && s[4] == 0 && s[5]
                == 0 && s[6] == 0 && s[7] == 1,
        }
    }
}

/// An IP address and a port.
#[derive(Clone, Copy, Debug, PartialEq, Eq)]
pub struct SocketAddr {
    pub ip: IpAddr,
    pub port: u16,
}

impl SocketAddr {
    pub fn new(ip: IpAddr, port: u16) -> (res: Self)
        ensures
            res.ip == ip,
            res.port == port,
    {
        SocketAddr { ip, port }
    }
}

/// The socket operation that a plugin asks the host to check.
#[derive(Clone, Copy, Debug, PartialEq, Eq, Structural)]
pub enum SocketAddrUse {
    TcpBind,
    TcpConnect,
    TcpListen,
    TcpAccept,
    UdpBind,
    UdpSend,
    UdpReceive,
}

/// The network permissions that shape a plugin's socket policy.
#[derive(Clone, Copy, Debug, PartialEq, Eq, Structural)]
pub enum NetworkPermission {
    /// Outbound connections of every protocol.
    Outbound,
    /// Every TCP operation.
    Tcp,
    /// Every UDP operation.
    Udp,
    TcpConnect,
    TcpBind,
    /// Connected UDP: sending and receiving on one peer.
    UdpConnect,
    UdpBind,
    UdpOutgoingDatagram,
}

/// The socket operations a plugin may perform.
#[derive(Clone, Copy, Debug)]
pub struct SocketPolicy {
    pub tcp_connect: bool,
    pub tcp_bind: bool,
    pub udp_send: bool,
    pub udp_receive: bool,
    pub udp_bind: bool,
    pub loopback_only: bool,
}

impl Default for SocketPolicy {
    /// The policy that grants nothing.
    fn default() -> (res: Self)
        ensures
            !res.tcp_connect && !res.tcp_bind && !res.udp_send && !res.udp_receive
                && !res.udp_bind && !res.loopback_only,
    {
        SocketPolicy {
            tcp_connect: false,
            tcp_bind: false,
            udp_send: false,
            udp_receive: false,
            udp_bind: false,
            loopback_only: false,
        }
    }
}

impl SocketPolicy {
    /// The wildcard bind, to port 0, that the runtime performs before an
    /// outbound TCP connect or UDP send; permitted by the outbound right alone.
    pub open spec fn is_implicit_outbound_bind(self, addr: SocketAddr, reason: SocketAddrUse) -> bool {
        &&& addr.ip.spec_is_unspecified()
        &&& addr.port == 0
        &&& match reason {
            SocketAddrUse::TcpBind => self.tcp_connect,
            SocketAddrUse::UdpBind => self.udp_send,
            _ => false,
        }
    }

    /// The right that the operation needs.
    pub open spec fn operation_allowed(self, addr: SocketAddr, reason: SocketAddrUse) -> bool {
        match reason {
            SocketAddrUse::TcpConnect => self.tcp_connect,
            SocketAddrUse::TcpBind => self.tcp_bind || self.is_implicit_outbound_bind(addr, reason),
            SocketAddrUse::TcpListen | SocketAddrUse::TcpAccept => self.tcp_bind,
            SocketAddrUse::UdpBind => self.udp_bind || self.is_implicit_outbound_bind(addr, reason),
            SocketAddrUse::UdpSend => self.udp_send,
            SocketAddrUse::UdpReceive => self.udp_receive,
        }
    }

    /// An operation is allowed when the policy grants its right and, under a
    /// loopback-only policy, the address is a loopback address or the
    /// operation is the implicit outbound bind.
    pub open spec fn spec_allows(self, addr: SocketAddr, reason: SocketAddrUse) -> bool {
        self.operation_allowed(addr, reason) && (!self.loopback_only || addr.ip.spec_is_loopback()
            || self.is_implicit_outbound_bind(addr, reason))
    }

    /// Whether the policy lets a plugin use `addr` for `reason`.
    pub fn allows(self, addr: SocketAddr, reason: SocketAddrUse) -> (res: bool)
        ensures
            res == self.spec_allows(addr, reason),
    {
        let implicit_outbound_bind = addr.ip.is_unspecified() && addr.port == 0 && match reason {
            SocketAddrUse::TcpBind => self.tcp_connect,
            SocketAddrUse::UdpBind => self.udp_send,
            _ => false,
        };
        let operation_allowed = match reason {
            SocketAddrUse::TcpConnect => self.tcp_connect,
            SocketAddrUse::TcpBind => self.tcp_bind || implicit_outbound_bind,
            SocketAddrUse::TcpListen | SocketAddrUse::TcpAccept => self.tcp_bind,
            SocketAddrUse::UdpBind => self.udp_bind || implicit_outbound_bind,
            SocketAddrUse::UdpSend => self.udp_send,
            SocketAddrUse::UdpReceive => self.udp_receive,
        };
        operation_allowed && (!self.loopback_only || addr.ip.is_loopback()
            || implicit_outbound_bind)
    }
}

fn has_permission(granted: &[NetworkPermission], permission: NetworkPermission) -> (res: bool)
    ensures
        res == granted@.contains(permission),
{
    let mut i: usize = 0;
    while i < granted.len()
        invariant
            i <= granted@.len(),
            forall|j: int| 0 <= j < i ==> granted@[j] != permission,
        decreases granted.len() - i,
    {
        if granted[i] == permission {
            return true;
        }
        i = i + 1;
    }
    false
}

/// Derives the socket policy from the network permissions a plugin holds.
/// TCP connect comes with the TCP, outbound or TCP-connect permission; TCP
/// bind with the TCP or TCP-bind permission; UDP bind with the UDP or UDP-bind
/// permission; connected UDP with the UDP, outbound or UDP-connect permission;
/// sending with connected UDP or outgoing datagrams; receiving with connected
/// UDP or UDP bind.
pub fn socket_policy_for_permissions(
    granted: &[NetworkPermission],
    loopback_only: bool,
) -> (res: SocketPolicy)
    ensures
        res.tcp_connect == (granted@.contains(NetworkPermission::Tcp) || granted@.contains(
            NetworkPermission::Outbound,
        ) || granted@.contains(NetworkPermission::TcpConnect)),
        res.tcp_bind == (granted@.contains(NetworkPermission::Tcp) || granted@.contains(
            NetworkPermission::TcpBind,
        )),
        res.udp_bind == (granted@.contains(NetworkPermission::Udp) || granted@.contains(
            NetworkPermission::UdpBind,
        )),
        res.udp_send == (granted@.contains(NetworkPermission::Udp) || granted@.contains(
            NetworkPermission::Outbound,
        ) || granted@.contains(NetworkPermission::UdpConnect) || granted@.contains(
            NetworkPermission::UdpOutgoingDatagram,
        )),
        res.udp_receive == (granted@.contains(NetworkPermission::Udp) || granted@.contains(
            NetworkPermission::Outbound,
        ) || granted@.contains(NetworkPermission::UdpConnect) || granted@.contains(
            NetworkPermission::UdpBind,
        )),
        res.loopback_only == loopback_only,
{
    let network_outbound = has_permission(granted, NetworkPermission::Outbound);
    let tcp_allowed = has_permission(granted, NetworkPermission::Tcp);
    let udp_allowed = has_permission(granted, NetworkPermission::Udp);
    let tcp_connect = tcp_allowed || network_outbound || has_permission(
        granted,
        NetworkPermission::TcpConnect,
    );
    let tcp_bind = tcp_allowed || has_permission(granted, NetworkPermission::TcpBind);
    let udp_connected = udp_allowed || network_outbound || has_permission(
        granted,
        NetworkPermission::UdpConnect,
    );
    let udp_bind = udp_allowed || has_permission(granted, NetworkPermission::UdpBind);
    let udp_send = udp_connected || has_permission(
        granted,
        NetworkPermission::UdpOutgoingDatagram,
    );
    let udp_receive = udp_connected || udp_bind;
    SocketPolicy { tcp_connect, tcp_bind, udp_send, udp_receive, udp_bind, loopback_only }
}

/// The policy that grants nothing denies every operation on every address.
pub proof fn lemma_empty_policy_denies_everything(
    policy: SocketPolicy,
    addr: SocketAddr,
    reason: SocketAddrUse,
)
    requires
        !policy.tcp_connect && !policy.tcp_bind && !policy.udp_send && !policy.udp_receive
            && !policy.udp_bind,
    ensures
        !policy.spec_allows(addr, reason),
{
}

/// Without the bind right, a bind is allowed only as the implicit outbound
/// bind: to the wildcard address, port 0, by a policy that may connect (TCP)
/// or send (UDP).
pub proof fn lemma_bind_without_bind_right(policy: SocketPolicy, addr: SocketAddr)
    ensures
        !policy.tcp_bind && policy.spec_allows(addr, SocketAddrUse::TcpBind) ==> addr.ip.spec_is_unspecified()
            && addr.port == 0 && policy.tcp_connect,
        !policy.udp_bind && policy.spec_allows(addr, SocketAddrUse::UdpBind) ==> addr.ip.spec_is_unspecified()
            && addr.port == 0 && policy.udp_send,
        !policy.tcp_bind ==> !policy.spec_allows(addr, SocketAddrUse::TcpListen)
            && !policy.spec_allows(addr, SocketAddrUse::TcpAccept),
{
}

/// Binding does not grant outbound access: a policy without the connect or
/// send right never allows a TCP connect or a UDP send.
pub proof fn lemma_bind_does_not_grant_outbound(policy: SocketPolicy, addr: SocketAddr)
    ensures
        !policy.tcp_connect ==> !policy.spec_allows(addr, SocketAddrUse::TcpConnect),
        !policy.udp_send ==> !policy.spec_allows(addr, SocketAddrUse::UdpSend),
{
}

/// A loopback-only policy allows nothing on a non-loopback address except the
/// implicit outbound bind to the wildcard address and port 0.
pub proof fn lemma_loopback_only_confines(
    policy: SocketPolicy,
    addr: SocketAddr,
    reason: SocketAddrUse,
)
    requires
        policy.loopback_only,
        policy.spec_allows(addr, reason),
        !addr.ip.spec_is_loopback(),
    ensures
        addr.ip.spec_is_unspecified(),
        addr.port == 0,
        reason == SocketAddrUse::TcpBind || reason == SocketAddrUse::UdpBind,
{
}

/// Every derived policy that may receive UDP datagrams may also send them or
/// bind, and the outbound permission alone grants connecting and sending and
/// receiving but no explicit bind or listen.
pub proof fn lemma_derived_policy_shape(granted: Seq<NetworkPermission>, policy: SocketPolicy)
    requires
        policy.tcp_connect == (granted.contains(NetworkPermission::Tcp) || granted.contains(
            NetworkPermission::Outbound,
        ) || granted.contains(NetworkPermission::TcpConnect)),
        policy.tcp_bind == (granted.contains(NetworkPermission::Tcp) || granted.contains(
            NetworkPermission::TcpBind,
        )),
        policy.udp_bind == (granted.contains(NetworkPermission::Udp) || granted.contains(
            NetworkPermission::UdpBind,
        )),
        policy.udp_send == (granted.contains(NetworkPermission::Udp) || granted.contains(
            NetworkPermission::Outbound,
        ) || granted.contains(NetworkPermission::UdpConnect) || granted.contains(
            NetworkPermission::UdpOutgoingDatagram,
        )),
        policy.udp_receive == (granted.contains(NetworkPermission::Udp) || granted.contains(
            NetworkPermission::Outbound,
        ) || granted.contains(NetworkPermission::UdpConnect) || granted.contains(
            NetworkPermission::UdpBind,
        )),
    ensures
        policy.udp_receive ==> policy.udp_send || policy.udp_bind,
        granted == seq![NetworkPermission::Outbound] ==> policy.tcp_connect && policy.udp_send
            && policy.udp_receive && !policy.tcp_bind && !policy.udp_bind,
{
    if granted == seq![NetworkPermission::Outbound] {
        assert(granted[0] == NetworkPermission::Outbound);
        assert(!granted.contains(NetworkPermission::Tcp));
        assert(!granted.contains(NetworkPermission::TcpBind));
        assert(!granted.contains(NetworkPermission::Udp));
        assert(!granted.contains(NetworkPermission::UdpBind));
    }
}

} // verus!
