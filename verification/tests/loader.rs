use pumpkin_wasm_host::loader::{
    OutboundRoute, PluginHttpHooks, WasmPluginLoader, maybe_verify_wasm_plugin,
    plugin_binary_for_loading,
};
use pumpkin_wasm_host::signature::{PumpkinMetadata, VerificationResult};

fn metadata() -> PumpkinMetadata {
    PumpkinMetadata {
        marketplace_url: "https://market.example".to_string(),
        plugin_id: 1,
        plugin_name: "p".to_string(),
        version: "0.1.0".to_string(),
        dev_id: 2,
        dev_name: "d".to_string(),
        is_paid: true,
        user_id: 3,
        license_key: Some("k".to_string()),
        issued_at: "now".to_string(),
    }
}

fn result(is_signed: bool, is_valid: bool) -> VerificationResult {
    VerificationResult {
        is_valid,
        is_signed,
        error: None,
        metadata: Some(metadata()),
        signature_envelope: None,
        public_key_hex: String::new(),
    }
}

#[test]
fn loader_accepts_wasm_extension_in_any_case() {
    let loader = WasmPluginLoader::new(true);
    assert!(loader.verify_signatures());
    assert!(loader.can_load_extension("wasm"));
    assert!(loader.can_load_extension("WaSm"));
    assert!(!loader.can_load_extension("wasm2"));
    assert!(!loader.can_load_extension("jar"));
    assert!(!loader.can_load_extension(""));
    assert!(loader.can_unload());
}

#[test]
fn verification_runs_only_when_enabled() {
    let bytes = [0u8, 1, 2];
    assert_eq!(maybe_verify_wasm_plugin(&bytes, "p.wasm", false, |b: &[u8], _: &str| b.len()), None);
    assert_eq!(maybe_verify_wasm_plugin(&bytes, "p.wasm", true, |b: &[u8], _: &str| b.len()), Some(3));
    assert!(!WasmPluginLoader::new(false).verify_signatures());
}

#[test]
fn outbound_http_needs_permission() {
    let hooks = PluginHttpHooks::new();
    assert!(!hooks.allow_outbound);
    assert_eq!(hooks.route_request(), OutboundRoute::Denied);
    assert_eq!(PluginHttpHooks::default().route_request(), OutboundRoute::Denied);
    let open = PluginHttpHooks { allow_outbound: true };
    assert_eq!(open.route_request(), OutboundRoute::DefaultClient);
}

#[test]
fn only_valid_signatures_give_trusted_metadata() {
    let mut wasm = b"\0asm\x01\0\0\0".to_vec();
    let module = wasm.clone();
    wasm.extend_from_slice(&[0, 5, 4, b'n', b'a', b'm', b'e']);
    let mut signed = wasm.clone();
    signed.extend_from_slice(b"\0\x13\x10pumpkin.metadata{}");

    let (meta, bytes) = plugin_binary_for_loading(signed.clone(), Some(result(true, true)));
    assert_eq!(meta, Some(metadata()));
    assert_eq!(bytes, wasm);

    let (meta, _) = plugin_binary_for_loading(signed.clone(), Some(result(true, false)));
    assert_eq!(meta, None);
    let (meta, _) = plugin_binary_for_loading(signed, None);
    assert_eq!(meta, None);
    let (meta, bytes) = plugin_binary_for_loading(module.clone(), Some(result(false, true)));
    assert_eq!(meta, None);
    assert_eq!(bytes, module);
}

#[test]
fn loader_takes_the_extension_of_a_path() {
    let loader = WasmPluginLoader::new(false);
    assert!(loader.can_load("dir/plugin.wasm"));
    assert!(loader.can_load("PLUGIN.WASM"));
    assert!(!loader.can_load("plugin.wasm.bak"));
    assert!(!loader.can_load("wasm"));
    assert!(!loader.can_load(".wasm"));
    assert!(!loader.can_load("plugin.so"));
    assert!(loader.can_load("plugins/.hidden.wasm"));
    assert!(!loader.can_load(""));
}
