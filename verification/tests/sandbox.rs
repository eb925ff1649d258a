use pumpkin_wasm_host::sandbox::{
    DataDirAccess, PermissionIds, PluginOverride, PluginSandboxConfig, plan_plugin_sandbox,
};

fn ids() -> PermissionIds {
    let id = |s: &str| format!("pumpkin:{s}");
    PermissionIds {
        network_dns: id("network.dns"),
        network_loopback: id("network.loopback"),
        network_outbound: id("network.outbound"),
        network_tcp: id("network.tcp"),
        network_udp: id("network.udp"),
        network_tcp_connect: id("network.tcp.connect"),
        network_tcp_bind: id("network.tcp.bind"),
        network_udp_connect: id("network.udp.connect"),
        network_udp_bind: id("network.udp.bind"),
        network_udp_outgoing_datagram: id("network.udp.outgoing_datagram"),
        http_outbound: id("http.outbound"),
        sys_env: id("sys.env"),
        sys_env_prefix: id("sys.env."),
        fs_read_data: id("fs.read_data"),
        fs_write_data: id("fs.write_data"),
    }
}

fn config() -> PluginSandboxConfig {
    PluginSandboxConfig {
        blocked_permissions: vec!["pumpkin:http.outbound".to_string()],
        loopback_only: false,
        inherit_env: false,
        max_memory_mb: Some(64),
    }
}

fn strings(list: &[&str]) -> Vec<String> {
    list.iter().map(|s| s.to_string()).collect()
}

#[test]
fn blocked_permissions_are_dropped() {
    let requested = strings(&[
        "pumpkin:network.outbound",
        "pumpkin:http.outbound",
        "pumpkin:fs.read_data",
        "pumpkin:sys.env.HOME",
    ]);
    let host_env = vec![
        ("HOME".to_string(), "/home/mc".to_string()),
        ("PATH".to_string(), "/bin".to_string()),
    ];
    let plan = plan_plugin_sandbox(&requested, &config(), None, &ids(), &host_env);
    assert_eq!(
        plan.permissions,
        strings(&["pumpkin:network.outbound", "pumpkin:fs.read_data", "pumpkin:sys.env.HOME"])
    );
    assert!(!plan.allow_http_outbound);
    assert!(!plan.allow_ip_name_lookup);
    assert!(plan.socket_policy.tcp_connect && !plan.socket_policy.tcp_bind);
    assert!(plan.socket_policy.udp_send && plan.socket_policy.udp_receive && !plan.socket_policy.udp_bind);
    assert!(plan.allow_tcp && plan.allow_udp);
    assert!(!plan.socket_policy.loopback_only);
    assert!(!plan.inherit_env);
    assert_eq!(plan.environment, vec![("HOME".to_string(), "/home/mc".to_string())]);
    assert_eq!(plan.data_dir, Some(DataDirAccess::ReadOnly));
    assert_eq!(plan.memory_limit_bytes, Some(64 * 1024 * 1024));
}

#[test]
fn plugin_override_takes_precedence() {
    let requested = strings(&["pumpkin:network.dns", "pumpkin:fs.write_data", "pumpkin:sys.env", "pumpkin:network.tcp"]);
    let ov = PluginOverride {
        blocked_permissions: strings(&["pumpkin:network.tcp"]),
        loopback_only: Some(true),
        max_memory_mb: Some(u64::MAX),
        environment: vec![("MODE".to_string(), "test".to_string())],
    };
    let host_env = vec![("HOME".to_string(), "/home/mc".to_string())];
    let plan = plan_plugin_sandbox(&requested, &config(), Some(&ov), &ids(), &host_env);
    assert_eq!(plan.permissions, strings(&["pumpkin:network.dns", "pumpkin:fs.write_data", "pumpkin:sys.env"]));
    assert!(plan.allow_ip_name_lookup);
    assert!(plan.socket_policy.loopback_only);
    assert!(!plan.allow_tcp && !plan.allow_udp);
    assert!(plan.inherit_env);
    assert_eq!(plan.environment, vec![("MODE".to_string(), "test".to_string())]);
    assert_eq!(plan.data_dir, Some(DataDirAccess::ReadWrite));
    assert_eq!(plan.memory_limit_bytes, Some(usize::MAX));
}

#[test]
fn nothing_requested_gives_nothing() {
    let cfg = PluginSandboxConfig { blocked_permissions: Vec::new(), loopback_only: false, inherit_env: false, max_memory_mb: None };
    let plan = plan_plugin_sandbox(&Vec::new(), &cfg, None, &ids(), &Vec::new());
    assert!(plan.permissions.is_empty());
    assert_eq!(plan.data_dir, None);
    assert_eq!(plan.memory_limit_bytes, None);
    assert!(!plan.allow_tcp && !plan.allow_udp && !plan.allow_http_outbound);
    assert!(plan.environment.is_empty());
}
