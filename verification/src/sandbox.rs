//! The sandbox a plugin gets when it is enabled: which of its permissions
//! hold after the server's blocks, and what its WASI context may do.

use vstd::prelude::*;
use vstd::string::*;
use crate::socket_policy::{NetworkPermission, SocketPolicy, socket_policy_for_permissions};
use crate::text::{contains_text, texts_contain};

verus! {

/// The identifiers under which the server names the permissions that shape
/// a plugin's sandbox.
pub struct PermissionIds {
    pub network_dns: String,
    pub network_loopback: String,
    pub network_outbound: String,
    pub network_tcp: String,
    pub network_udp: String,
    pub network_tcp_connect: String,
    pub network_tcp_bind: String,
    pub network_udp_connect: String,
    pub network_udp_bind: String,
    pub network_udp_outgoing_datagram: String,
    pub http_outbound: String,
    pub sys_env: String,
    /// Prefix of the permissions that grant one environment variable each:
    /// the prefix followed by the variable's name.
    pub sys_env_prefix: String,
    pub fs_read_data: String,
    pub fs_write_data: String,
}

/// Server-wide plugin settings that bear on the sandbox.
pub struct PluginSandboxConfig {
    pub blocked_permissions: Vec<String>,
    pub loopback_only: bool,
    pub inherit_env: bool,
    pub max_memory_mb: Option<u64>,
}

/// Settings the server holds for one plugin, overriding the server-wide ones.
pub struct PluginOverride {
    pub blocked_permissions: Vec<String>,
    pub loopback_only: Option<bool>,
    pub max_memory_mb: Option<u64>,
    /// Environment variables given to the plugin whatever its permissions.
    pub environment: Vec<(String, String)>,
}

/// Access to the plugin's data folder.
#[derive(Clone, Copy, Debug, PartialEq, Eq, Structural)]
pub enum DataDirAccess {
    ReadOnly,
    ReadWrite,
}

/// What the plugin's WASI context is set up with.
pub struct SandboxPlan {
    /// The plugin's permissions that no block removes, in their order.
    pub permissions: Vec<String>,
    pub allow_ip_name_lookup: bool,
    pub socket_policy: SocketPolicy,
    pub allow_tcp: bool,
    pub allow_udp: bool,
    pub allow_http_outbound: bool,
    /// The whole host environment is inherited.
    pub inherit_env: bool,
    /// Variables set one by one: the host variables the plugin holds a
    /// permission for (when the environment is not inherited), then the
    /// override's variables.
    pub environment: Vec<(String, String)>,
    pub data_dir: Option<DataDirAccess>,
    pub memory_limit_bytes: Option<usize>,
}

/// A permission is blocked by the server-wide list or the override's list.
pub open spec fn is_blocked(
    config: PluginSandboxConfig,
    plugin_override: Option<PluginOverride>,
    permission: Seq<char>,
) -> bool {
    texts_contain(config.blocked_permissions@, permission) || match plugin_override {
        Some(o) => texts_contain(o.blocked_permissions@, permission),
        None => false,
    }
}

/// The requested permissions that are not blocked, in order.
pub open spec fn unblocked_permissions(
    requested: Seq<String>,
    config: PluginSandboxConfig,
    plugin_override: Option<PluginOverride>,
) -> Seq<Seq<char>>
    decreases requested.len(),
{
    if requested.len() == 0 {
        Seq::empty()
    } else {
        let rest = unblocked_permissions(requested.drop_last(), config, plugin_override);
        if is_blocked(config, plugin_override, requested.last()@) {
            rest
        } else {
            rest.push(requested.last()@)
        }
    }
}

proof fn lemma_push_contains(list: Seq<Seq<char>>, last: Seq<char>, item: Seq<char>)
    ensures
        list.push(last).contains(item) <==> (list.contains(item) || item == last),
{
    if list.push(last).contains(item) {
        let i = choose|i: int| 0 <= i < list.push(last).len() && list.push(last)[i] == item;
        if i < list.len() {
            assert(list[i] == item);
        }
    }
    if list.contains(item) {
        let i = choose|i: int| 0 <= i < list.len() && list[i] == item;
        assert(list.push(last)[i] == item);
    }
    if item == last {
        assert(list.push(last)[list.len() as int] == item);
    }
}

/// A permission holds after the blocks exactly when the plugin requested it
/// and it is blocked neither server-wide nor for this plugin.
pub proof fn lemma_granted_iff_requested_and_unblocked(
    requested: Seq<String>,
    config: PluginSandboxConfig,
    plugin_override: Option<PluginOverride>,
    permission: Seq<char>,
)
    ensures
        unblocked_permissions(requested, config, plugin_override).contains(permission) <==> (
        texts_of(requested).contains(permission) && !is_blocked(
            config,
            plugin_override,
            permission,
        )),
    decreases requested.len(),
{
    if requested.len() == 0 {
        assert(texts_of(requested).len() == 0);
        assert(unblocked_permissions(requested, config, plugin_override).len() == 0);
    } else {
        let init = requested.drop_last();
        let last = requested.last()@;
        lemma_granted_iff_requested_and_unblocked(init, config, plugin_override, permission);
        let rest = unblocked_permissions(init, config, plugin_override);
        assert(texts_of(requested) =~= texts_of(init).push(last));
        lemma_push_contains(texts_of(init), last, permission);
        lemma_push_contains(rest, last, permission);
    }
}

/// Both block lists apply: a permission on the server-wide list is never
/// granted, whatever the plugin's override says, and neither is one on the
/// override's own list; a requested permission on neither list is granted.
pub proof fn lemma_block_lists_both_apply(
    requested: Seq<String>,
    config: PluginSandboxConfig,
    plugin_override: Option<PluginOverride>,
    permission: Seq<char>,
)
    ensures
        texts_contain(config.blocked_permissions@, permission) ==> !unblocked_permissions(
            requested,
            config,
            plugin_override,
        ).contains(permission),
        (plugin_override matches Some(o) && texts_contain(o.blocked_permissions@, permission))
            ==> !unblocked_permissions(requested, config, plugin_override).contains(permission),
        (texts_of(requested).contains(permission) && !texts_contain(
            config.blocked_permissions@,
            permission,
        ) && !(plugin_override matches Some(o) && texts_contain(
            o.blocked_permissions@,
            permission,
        ))) ==> unblocked_permissions(requested, config, plugin_override).contains(permission),
{
    lemma_granted_iff_requested_and_unblocked(requested, config, plugin_override, permission);
}

/// The text of each string.
pub open spec fn texts_of(list: Seq<String>) -> Seq<Seq<char>> {
    list.map_values(|s: String| s@)
}

/// The network permissions among the granted ones.
pub open spec fn granted_network(granted: Seq<Seq<char>>, ids: PermissionIds) -> Set<NetworkPermission> {
    Set::new(
        |p: NetworkPermission|
            granted.contains(
                match p {
                    NetworkPermission::Outbound => ids.network_outbound@,
                    NetworkPermission::Tcp => ids.network_tcp@,
                    NetworkPermission::Udp => ids.network_udp@,
                    NetworkPermission::TcpConnect => ids.network_tcp_connect@,
                    NetworkPermission::TcpBind => ids.network_tcp_bind@,
                    NetworkPermission::UdpConnect => ids.network_udp_connect@,
                    NetworkPermission::UdpBind => ids.network_udp_bind@,
                    NetworkPermission::UdpOutgoingDatagram => ids.network_udp_outgoing_datagram@,
                },
            ),
    )
}

/// Each network permission is held through its own permission id.
pub proof fn lemma_network_permission_ids(granted: Seq<Seq<char>>, ids: PermissionIds)
    ensures
        granted_network(granted, ids).contains(NetworkPermission::Outbound) == granted.contains(
            ids.network_outbound@,
        ),
        granted_network(granted, ids).contains(NetworkPermission::Tcp) == granted.contains(
            ids.network_tcp@,
        ),
        granted_network(granted, ids).contains(NetworkPermission::Udp) == granted.contains(
            ids.network_udp@,
        ),
        granted_network(granted, ids).contains(NetworkPermission::TcpConnect) == granted.contains(
            ids.network_tcp_connect@,
        ),
        granted_network(granted, ids).contains(NetworkPermission::TcpBind) == granted.contains(
            ids.network_tcp_bind@,
        ),
        granted_network(granted, ids).contains(NetworkPermission::UdpConnect) == granted.contains(
            ids.network_udp_connect@,
        ),
        granted_network(granted, ids).contains(NetworkPermission::UdpBind) == granted.contains(
            ids.network_udp_bind@,
        ),
        granted_network(granted, ids).contains(NetworkPermission::UdpOutgoingDatagram)
            == granted.contains(ids.network_udp_outgoing_datagram@),
{
}

/// The host variables whose per-variable permission is granted, in order.
pub open spec fn selected_environment(
    host_env: Seq<(String, String)>,
    granted: Seq<Seq<char>>,
    prefix: Seq<char>,
) -> Seq<(Seq<char>, Seq<char>)>
    decreases host_env.len(),
{
    if host_env.len() == 0 {
        Seq::empty()
    } else {
        let rest = selected_environment(host_env.drop_last(), granted, prefix);
        let (k, v) = host_env.last();
        if granted.contains(prefix + k@) {
            rest.push((k@, v@))
        } else {
            rest
        }
    }
}

/// A host variable is passed on exactly when the host has it and the
/// permission named by the prefix followed by its name is granted.
pub proof fn lemma_selected_environment_members(
    host_env: Seq<(String, String)>,
    granted: Seq<Seq<char>>,
    prefix: Seq<char>,
    key: Seq<char>,
    value: Seq<char>,
)
    ensures
        selected_environment(host_env, granted, prefix).contains((key, value)) <==> (
        granted.contains(prefix + key) && exists|i: int|
            0 <= i < host_env.len() && #[trigger] host_env[i].0@ == key && host_env[i].1@ == value),
    decreases host_env.len(),
{
    if host_env.len() > 0 {
        let init = host_env.drop_last();
        lemma_selected_environment_members(init, granted, prefix, key, value);
        let rest = selected_environment(init, granted, prefix);
        let last = host_env.last();
        vstd::seq_lib::lemma_seq_contains_after_push(rest, (last.0@, last.1@), (key, value));
        if exists|i: int|
            0 <= i < host_env.len() && #[trigger] host_env[i].0@ == key && host_env[i].1@ == value {
            let i = choose|i: int|
                0 <= i < host_env.len() && #[trigger] host_env[i].0@ == key && host_env[i].1@
                    == value;
            if i < init.len() {
                assert(init[i] == host_env[i]);
            }
        }
        if exists|i: int|
            0 <= i < init.len() && #[trigger] init[i].0@ == key && init[i].1@ == value {
            let i = choose|i: int|
                0 <= i < init.len() && #[trigger] init[i].0@ == key && init[i].1@ == value;
            assert(host_env[i] == init[i]);
        }
    }
}

/// The text of each pair of strings.
pub open spec fn pair_texts(list: Seq<(String, String)>) -> Seq<(Seq<char>, Seq<char>)> {
    list.map_values(|p: (String, String)| (p.0@, p.1@))
}

fn is_blocked_exec(
    config: &PluginSandboxConfig,
    plugin_override: Option<&PluginOverride>,
    permission: &str,
) -> (res: bool)
    ensures
        res == is_blocked(
            *config,
            match plugin_override {
                Some(o) => Some(*o),
                None => None,
            },
            permission@,
        ),
{
    contains_text(&config.blocked_permissions, permission) || match plugin_override {
        Some(o) => contains_text(&o.blocked_permissions, permission),
        None => false,
    }
}

fn contains_granted(granted: &Vec<String>, id: &String) -> (res: bool)
    ensures
        res == texts_of(granted@).contains(id@),
{
    let r = contains_text(granted, id.as_str());
    proof {
        if r {
            let i = choose|i: int| 0 <= i < granted@.len() && #[trigger] granted@[i]@ == id@;
            assert(texts_of(granted@)[i] == id@);
        }
        if texts_of(granted@).contains(id@) {
            let i = choose|i: int| 0 <= i < texts_of(granted@).len() && texts_of(granted@)[i] == id@;
            assert(granted@[i]@ == id@);
        }
    }
    r
}

/// Plans the sandbox of a plugin from the permissions it requests, the
/// server-wide settings, the settings the server holds for this plugin, the
/// identifiers of the permissions, and the host's environment.
///
/// A permission holds when it is requested and blocked neither server-wide
/// nor for this plugin. Name lookups need the DNS permission; the socket
/// policy follows the network permissions and is confined to loopback when
/// the plugin's setting, or else the server's, says so or when the plugin
/// holds the loopback permission. Outbound HTTP needs its permission. The
/// environment is inherited when the server says so or the plugin holds the
/// environment permission; otherwise each host variable needs its own
/// permission. The data folder is writable with the write permission and
/// readable with either. The memory limit is the plugin's setting, or else
/// the server's, in mebibytes, saturating.
pub fn plan_plugin_sandbox(
    requested: &Vec<String>,
    config: &PluginSandboxConfig,
    plugin_override: Option<&PluginOverride>,
    ids: &PermissionIds,
    host_env: &Vec<(String, String)>,
) -> (res: SandboxPlan)
    ensures
        ({
            let ov = match plugin_override {
                Some(o) => Some(*o),
                None => None,
            };
            let granted = unblocked_permissions(requested@, *config, ov);
            let loopback_only = match ov {
                Some(o) => match o.loopback_only {
                    Some(b) => b,
                    None => config.loopback_only,
                },
                None => config.loopback_only,
            } || granted.contains(ids.network_loopback@);
            let mb = match ov {
                Some(o) => match o.max_memory_mb {
                    Some(m) => Some(m),
                    None => config.max_memory_mb,
                },
                None => config.max_memory_mb,
            };
            let inherit = config.inherit_env || granted.contains(ids.sys_env@);
            let may_write = granted.contains(ids.fs_write_data@);
            let may_read = granted.contains(ids.fs_read_data@);
            let net = granted_network(granted, *ids);
            &&& texts_of(res.permissions@) == granted
            &&& forall|p: Seq<char>|
                texts_contain(config.blocked_permissions@, p) ==> !#[trigger] texts_of(
                    res.permissions@,
                ).contains(p)
            &&& forall|p: Seq<char>|
                (ov matches Some(o) && texts_contain(o.blocked_permissions@, p)) ==> !#[trigger] texts_of(
                    res.permissions@,
                ).contains(p)
            &&& res.allow_ip_name_lookup == granted.contains(ids.network_dns@)
            &&& res.socket_policy.loopback_only == loopback_only
            &&& res.socket_policy.tcp_connect == (net.contains(NetworkPermission::Tcp)
                || net.contains(NetworkPermission::Outbound) || net.contains(
                NetworkPermission::TcpConnect,
            ))
            &&& res.socket_policy.tcp_bind == (net.contains(NetworkPermission::Tcp) || net.contains(
                NetworkPermission::TcpBind,
            ))
            &&& res.socket_policy.udp_bind == (net.contains(NetworkPermission::Udp) || net.contains(
                NetworkPermission::UdpBind,
            ))
            &&& res.socket_policy.udp_send == (net.contains(NetworkPermission::Udp) || net.contains(
                NetworkPermission::Outbound,
            ) || net.contains(NetworkPermission::UdpConnect) || net.contains(
                NetworkPermission::UdpOutgoingDatagram,
            ))
            &&& res.socket_policy.udp_receive == (net.contains(NetworkPermission::Udp)
                || net.contains(NetworkPermission::Outbound) || net.contains(
                NetworkPermission::UdpConnect,
            ) || net.contains(NetworkPermission::UdpBind))
            &&& res.allow_tcp == (res.socket_policy.tcp_connect || res.socket_policy.tcp_bind)
            &&& res.allow_udp == (res.socket_policy.udp_send || res.socket_policy.udp_receive
                || res.socket_policy.udp_bind)
            &&& res.allow_http_outbound == granted.contains(ids.http_outbound@)
            &&& res.inherit_env == inherit
            &&& pair_texts(res.environment@) == (if inherit {
                Seq::empty()
            } else {
                selected_environment(host_env@, granted, ids.sys_env_prefix@)
            }) + match ov {
                Some(o) => pair_texts(o.environment@),
                None => Seq::empty(),
            }
            &&& res.data_dir == (if may_write {
                Some(DataDirAccess::ReadWrite)
            } else if may_read {
                Some(DataDirAccess::ReadOnly)
            } else {
                None
            })
            &&& res.memory_limit_bytes == match mb {
                Some(m) => Some(
                    if (m as usize) * 1048576 <= usize::MAX {
                        ((m as usize) * 1048576) as usize
                    } else {
                        usize::MAX
                    },
                ),
                None => None,
            }
        }),
{
    let ghost ov = match plugin_override {
        Some(o) => Some(*o),
        None => None,
    };
    let mut permissions: Vec<String> = Vec::new();
    let mut i: usize = 0;
    while i < requested.len()
        invariant
            i <= requested@.len(),
            ov == match plugin_override {
                Some(o) => Some(*o),
                None => None,
            },
            texts_of(permissions@) == unblocked_permissions(requested@.take(i as int), *config, ov),
        decreases requested.len() - i,
    {
        proof {
            assert(requested@.take(i + 1).drop_last() =~= requested@.take(i as int));
            assert(requested@.take(i + 1).last() == requested@[i as int]);
        }
        if !is_blocked_exec(config, plugin_override, requested[i].as_str()) {
            permissions.push(requested[i].clone());
            assert(texts_of(permissions@) =~= unblocked_permissions(
                requested@.take(i + 1),
                *config,
                ov,
            ));
        } else {
            assert(texts_of(permissions@) =~= unblocked_permissions(
                requested@.take(i + 1),
                *config,
                ov,
            ));
        }
        i = i + 1;
    }
    assert(requested@.take(requested@.len() as int) =~= requested@);
    let ghost granted = texts_of(permissions@);
    assert forall|p: Seq<char>|
        texts_contain(config.blocked_permissions@, p) || (ov matches Some(o) && texts_contain(
            o.blocked_permissions@,
            p,
        )) implies !#[trigger] granted.contains(p) by {
        lemma_block_lists_both_apply(requested@, *config, ov, p);
    }
    let allow_ip_name_lookup = contains_granted(&permissions, &ids.network_dns);
    let setting_loopback = match plugin_override {
        Some(o) => match o.loopback_only {
            Some(b) => b,
            None => config.loopback_only,
        },
        None => config.loopback_only,
    };
    let loopback_only = setting_loopback || contains_granted(&permissions, &ids.network_loopback);
    let has_outbound = contains_granted(&permissions, &ids.network_outbound);
    let has_tcp = contains_granted(&permissions, &ids.network_tcp);
    let has_udp = contains_granted(&permissions, &ids.network_udp);
    let has_tcp_connect = contains_granted(&permissions, &ids.network_tcp_connect);
    let has_tcp_bind = contains_granted(&permissions, &ids.network_tcp_bind);
    let has_udp_connect = contains_granted(&permissions, &ids.network_udp_connect);
    let has_udp_bind = contains_granted(&permissions, &ids.network_udp_bind);
    let has_datagram = contains_granted(&permissions, &ids.network_udp_outgoing_datagram);
    let mut network: Vec<NetworkPermission> = Vec::new();
    if has_outbound {
        network.push(NetworkPermission::Outbound);
    }
    if has_tcp {
        network.push(NetworkPermission::Tcp);
    }
    if has_udp {
        network.push(NetworkPermission::Udp);
    }
    if has_tcp_connect {
        network.push(NetworkPermission::TcpConnect);
    }
    if has_tcp_bind {
        network.push(NetworkPermission::TcpBind);
    }
    if has_udp_connect {
        network.push(NetworkPermission::UdpConnect);
    }
    if has_udp_bind {
        network.push(NetworkPermission::UdpBind);
    }
    if has_datagram {
        network.push(NetworkPermission::UdpOutgoingDatagram);
    }
    let ghost net = granted_network(granted, *ids);
    assert forall|p: NetworkPermission| network@.contains(p) == net.contains(p) by {
        broadcast use vstd::seq_lib::group_seq_properties;
        let flag = match p {
            NetworkPermission::Outbound => has_outbound,
            NetworkPermission::Tcp => has_tcp,
            NetworkPermission::Udp => has_udp,
            NetworkPermission::TcpConnect => has_tcp_connect,
            NetworkPermission::TcpBind => has_tcp_bind,
            NetworkPermission::UdpConnect => has_udp_connect,
            NetworkPermission::UdpBind => has_udp_bind,
            NetworkPermission::UdpOutgoingDatagram => has_datagram,
        };
        assert(net.contains(p) == flag);
        if flag {
            assert(network@.contains(p));
        }
    }
    let socket_policy = socket_policy_for_permissions(network.as_slice(), loopback_only);
    let allow_tcp = socket_policy.tcp_connect || socket_policy.tcp_bind;
    let allow_udp = socket_policy.udp_send || socket_policy.udp_receive || socket_policy.udp_bind;
    let allow_http_outbound = contains_granted(&permissions, &ids.http_outbound);
    let inherit_env = config.inherit_env || contains_granted(&permissions, &ids.sys_env);
    let mut environment: Vec<(String, String)> = Vec::new();
    if !inherit_env {
        let mut j: usize = 0;
        while j < host_env.len()
            invariant
                j <= host_env@.len(),
                granted == texts_of(permissions@),
                pair_texts(environment@) == selected_environment(
                    host_env@.take(j as int),
                    granted,
                    ids.sys_env_prefix@,
                ),
            decreases host_env.len() - j,
        {
            proof {
                assert(host_env@.take(j + 1).drop_last() =~= host_env@.take(j as int));
                assert(host_env@.take(j + 1).last() == host_env@[j as int]);
            }
            let perm = ids.sys_env_prefix.clone().concat(host_env[j].0.as_str());
            if contains_granted(&permissions, &perm) {
                environment.push((host_env[j].0.clone(), host_env[j].1.clone()));
            }
            assert(pair_texts(environment@) =~= selected_environment(
                host_env@.take(j + 1),
                granted,
                ids.sys_env_prefix@,
            ));
            j = j + 1;
        }
        assert(host_env@.take(host_env@.len() as int) =~= host_env@);
    }
    let ghost selected = pair_texts(environment@);
    if let Some(o) = plugin_override {
        let mut k: usize = 0;
        while k < o.environment.len()
            invariant
                k <= o.environment@.len(),
                pair_texts(environment@) == selected + pair_texts(o.environment@.take(k as int)),
            decreases o.environment.len() - k,
        {
            proof {
                assert(o.environment@.take(k + 1) =~= o.environment@.take(k as int).push(
                    o.environment@[k as int],
                ));
            }
            let ghost before = environment@;
            let key = o.environment[k].0.clone();
            let value = o.environment[k].1.clone();
            environment.push((key, value));
            proof {
                let e = o.environment@[k as int];
                assert(pair_texts(environment@) =~= pair_texts(before).push((e.0@, e.1@)));
                assert(pair_texts(o.environment@.take(k + 1)) =~= pair_texts(
                    o.environment@.take(k as int),
                ).push((e.0@, e.1@)));
            }
            assert(pair_texts(environment@) =~= selected + pair_texts(
                o.environment@.take(k + 1),
            ));
            k = k + 1;
        }
        assert(o.environment@.take(o.environment@.len() as int) =~= o.environment@);
    } else {
        assert(pair_texts(environment@) =~= selected + Seq::empty());
    }
    let may_write = contains_granted(&permissions, &ids.fs_write_data);
    let may_read = contains_granted(&permissions, &ids.fs_read_data);
    let data_dir = if may_write {
        Some(DataDirAccess::ReadWrite)
    } else if may_read {
        Some(DataDirAccess::ReadOnly)
    } else {
        None
    };
    let max_memory_mb = match plugin_override {
        Some(o) => match o.max_memory_mb {
            Some(m) => Some(m),
            None => config.max_memory_mb,
        },
        None => config.max_memory_mb,
    };
    let memory_limit_bytes = match max_memory_mb {
        Some(mb) => Some(mebibytes_to_bytes(mb)),
        None => None,
    };
    SandboxPlan {
        permissions,
        allow_ip_name_lookup,
        socket_policy,
        allow_tcp,
        allow_udp,
        allow_http_outbound,
        inherit_env,
        environment,
        data_dir,
        memory_limit_bytes,
    }
}

/// `mb` mebibytes in bytes: `mb` cut to a `usize`, times 2^20, saturating at the largest `usize`.
fn mebibytes_to_bytes(mb: u64) -> (res: usize)
    ensures
        res == if (mb as usize) * 1048576 <= usize::MAX {
            ((mb as usize) * 1048576) as usize
        } else {
            usize::MAX
        },
{
    let m = #[verifier::truncate] (mb as usize);
    match m.checked_mul(1048576) {
        Some(v) => v,
        None => usize::MAX,
    }
}

} // verus!
