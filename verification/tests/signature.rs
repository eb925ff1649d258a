use pumpkin_wasm_host::crypto::KeyManager;
use pumpkin_wasm_host::sections::strip_pumpkin_sections;
use pumpkin_wasm_host::signature::{
    PendingVerification, PumpkinMetadata, SignatureInspection, VerificationResult,
    WasmSignatureEnvelope, assemble_signed_wasm, finish_wasm_verification,
    inspect_wasm_signature, is_wasm_signed, prepare_pumpkin_injection, verify_pumpkin_wasm,
    verify_wasm_plugin,
};

const SEED_HEX: &str = "9d61b19deffd5a60ba844af492ec2cc44449c5697b326919703bac031cae7f60";

fn module() -> Vec<u8> {
    b"\0asm\x01\0\0\0".to_vec()
}

fn custom_section(name: &str, data: &[u8]) -> Vec<u8> {
    let mut body = vec![name.len() as u8];
    body.extend_from_slice(name.as_bytes());
    body.extend_from_slice(data);
    let mut out = vec![0u8, body.len() as u8];
    out.extend_from_slice(&body);
    out
}

fn metadata() -> PumpkinMetadata {
    PumpkinMetadata {
        marketplace_url: "https://market.example".to_string(),
        plugin_id: 7,
        plugin_name: "demo".to_string(),
        version: "1.0.0".to_string(),
        dev_id: 3,
        dev_name: "dev".to_string(),
        is_paid: false,
        user_id: 11,
        license_key: None,
        issued_at: "2024-01-01T00:00:00Z".to_string(),
    }
}

fn metadata_json() -> Vec<u8> {
    br#"{"marketplace_url":"https://market.example","plugin_id":7,"plugin_name":"demo","version":"1.0.0","dev_id":3,"dev_name":"dev","is_paid":false,"user_id":11,"license_key":null,"issued_at":"2024-01-01T00:00:00Z"}"#.to_vec()
}

fn envelope_json(env: &WasmSignatureEnvelope) -> Vec<u8> {
    format!(
        r#"{{"version":{},"algorithm":"{}","public_key_hex":"{}","signature_hex":"{}"}}"#,
        env.version, env.algorithm, env.public_key_hex, env.signature_hex
    )
    .into_bytes()
}

fn signed_binary() -> (Vec<u8>, WasmSignatureEnvelope) {
    let key = KeyManager::new(SEED_HEX);
    let prepared = prepare_pumpkin_injection(&module(), &metadata_json(), &key).unwrap();
    let env = prepared.envelope.clone();
    let signed = assemble_signed_wasm(prepared.clean_wasm, &metadata_json(), &envelope_json(&env));
    (signed, env)
}

fn signer_key() -> String {
    KeyManager::new(SEED_HEX).public_key_hex()
}

fn pending(inspection: SignatureInspection) -> PendingVerification {
    match inspection {
        SignatureInspection::NeedsDecoding(p) => p,
        SignatureInspection::Decided(r) => panic!("unexpected result {r:?}"),
    }
}

#[test]
fn key_manager_derives_the_rfc8032_public_key() {
    let key = KeyManager::new(SEED_HEX);
    assert_eq!(
        key.public_key_hex(),
        "d75a980182b10ab7d54bfed3c964073a0ee172f3daa62325af021a68f707511a"
    );
    assert_eq!(key.sign(b"").len(), 64);
}

#[test]
fn key_manager_falls_back_to_zero_seed() {
    let zero = KeyManager::new(&"00".repeat(32));
    assert_eq!(KeyManager::new("not hex").public_key_hex(), zero.public_key_hex());
    assert_eq!(KeyManager::new("abcd").public_key_hex(), zero.public_key_hex());
}

#[test]
fn strip_removes_pumpkin_sections_wherever_they_stand() {
    let header = module();
    let type_section = vec![0x01u8, 0x01, 0x00];
    let mut wasm = header.clone();
    wasm.extend_from_slice(&custom_section("pumpkin.metadata", b"x"));
    wasm.extend_from_slice(&type_section);
    wasm.extend_from_slice(&custom_section("pumpkin.signature", b"{}"));
    wasm.extend_from_slice(&custom_section("name", b""));
    wasm.extend_from_slice(&custom_section("wasm_signature", b"{}"));
    let mut expected = header;
    expected.extend_from_slice(&type_section);
    expected.extend_from_slice(&custom_section("name", b""));
    assert_eq!(strip_pumpkin_sections(&wasm).unwrap(), expected);
}

#[test]
fn strip_removes_trailing_pumpkin_sections() {
    let mut wasm = module();
    let keep = custom_section("name", b"xyz");
    wasm.extend_from_slice(&keep);
    let mut expected = wasm.clone();
    wasm.extend_from_slice(&custom_section("pumpkin.metadata", b"{}"));
    wasm.extend_from_slice(&custom_section("wasm_signature", b"{}"));
    assert_eq!(strip_pumpkin_sections(&wasm).unwrap(), expected);
    expected.truncate(8);
    assert_eq!(strip_pumpkin_sections(&module()).unwrap(), expected);
}

#[test]
fn strip_keeps_non_wasm_bytes_whole() {
    let junk = b"hello world".to_vec();
    assert_eq!(strip_pumpkin_sections(&junk).unwrap(), junk);
}

#[test]
fn unsigned_binary_is_reported_unsigned() {
    match inspect_wasm_signature(&module(), "abcd") {
        SignatureInspection::Decided(r) => {
            assert!(!r.is_valid && !r.is_signed);
            assert_eq!(
                r.error.as_deref(),
                Some("WASM does not contain Pumpkin Market metadata or standard wasm_signature custom sections.")
            );
            assert_eq!(r.public_key_hex, "abcd");
        }
        SignatureInspection::NeedsDecoding(_) => panic!("module has no sections"),
    }
}

#[test]
fn signed_binary_sections_are_found() {
    let (signed, env) = signed_binary();
    let p = pending(inspect_wasm_signature(&signed, ""));
    assert_eq!(p.clean_wasm, module());
    assert_eq!(p.metadata_bytes, metadata_json());
    assert_eq!(p.signature_bytes, envelope_json(&env));
}

#[test]
fn signed_binary_verifies() {
    let (signed, env) = signed_binary();
    let p = pending(inspect_wasm_signature(&signed, &signer_key()));
    let result: VerificationResult = finish_wasm_verification(p, Ok(metadata()), Some(env.clone()));
    assert!(result.is_valid && result.is_signed);
    assert_eq!(result.error, None);
    assert_eq!(result.metadata, Some(metadata()));
    assert_eq!(result.public_key_hex, env.public_key_hex);
    assert_eq!(env.version, 1);
    assert_eq!(env.algorithm, "Ed25519");
}

#[test]
fn tampered_binary_fails_verification() {
    let (signed, env) = signed_binary();
    let mut p = pending(inspect_wasm_signature(&signed, &signer_key()));
    p.metadata_bytes.push(b' ');
    let result = finish_wasm_verification(p, Ok(metadata()), Some(env));
    assert!(!result.is_valid && result.is_signed);
    assert_eq!(
        result.error.as_deref(),
        Some("Signature verification failed: signature error: Verification equation was not satisfied")
    );
}

#[test]
fn metadata_decode_error_is_reported() {
    let (signed, _) = signed_binary();
    let p = pending(inspect_wasm_signature(&signed, "given"));
    let result = finish_wasm_verification(p, Err("bad json".to_string()), None);
    assert!(!result.is_valid && result.is_signed);
    assert_eq!(result.error.as_deref(), Some("Failed to parse pumpkin metadata: bad json"));
    assert_eq!(result.metadata, None);
    assert_eq!(result.public_key_hex, "given");
}

#[test]
fn bad_hex_in_envelope_is_reported() {
    let (signed, env) = signed_binary();
    let p = pending(inspect_wasm_signature(&signed, "given"));
    let bad_sig = WasmSignatureEnvelope { signature_hex: "zz".to_string(), ..env.clone() };
    let r = finish_wasm_verification(p, Ok(metadata()), Some(bad_sig));
    assert_eq!(r.error.as_deref(), Some("Invalid signature hex inside signature envelope."));
    assert_eq!(r.signature_envelope, None);
    assert_eq!(r.public_key_hex, "given");

    let p = pending(inspect_wasm_signature(&signed, "abc"));
    let r = finish_wasm_verification(p, Ok(metadata()), Some(env.clone()));
    assert_eq!(r.error.as_deref(), Some("Invalid public key hex format."));
    assert_eq!(r.public_key_hex, "abc");

    let p = pending(inspect_wasm_signature(&signed, "abcd"));
    let r = finish_wasm_verification(p, Ok(metadata()), Some(env.clone()));
    assert_eq!(
        r.error.as_deref(),
        Some("Invalid Ed25519 public key: signature error: VerifyingKey must be 32 bytes in length")
    );

    let p = pending(inspect_wasm_signature(&signed, &signer_key()));
    let short_sig = WasmSignatureEnvelope { signature_hex: "abcd".to_string(), ..env };
    let r = finish_wasm_verification(p, Ok(metadata()), Some(short_sig));
    assert_eq!(r.error.as_deref(), Some("Invalid signature bytes: signature error"));
}

#[test]
fn raw_signature_without_envelope_uses_given_key() {
    let key = KeyManager::new(SEED_HEX);
    let mut payload = module();
    payload.extend_from_slice(&metadata_json());
    let raw = key.sign(&payload);
    let p = PendingVerification {
        clean_wasm: module(),
        metadata_bytes: metadata_json(),
        signature_bytes: raw,
        public_key_hex: key.public_key_hex(),
    };
    let r = finish_wasm_verification(p, Ok(metadata()), None);
    assert!(r.is_valid);
    assert_eq!(r.public_key_hex, key.public_key_hex());
    assert_eq!(r.signature_envelope, None);
}

fn decode_metadata_text(text: &[u8]) -> Result<PumpkinMetadata, String> {
    if text == metadata_json().as_slice() {
        Ok(metadata())
    } else {
        Err("expected value at line 1 column 1".to_string())
    }
}

#[test]
fn signed_binary_verifies_end_to_end() {
    let (signed, env) = signed_binary();
    let expected_envelope = envelope_json(&env);
    let decoded = env.clone();
    let r = verify_pumpkin_wasm(&signed, &signer_key(), decode_metadata_text, move |text: &[u8]| {
        if text == expected_envelope.as_slice() { Some(decoded.clone()) } else { None }
    });
    assert!(r.is_valid && r.is_signed);
    assert_eq!(r.error, None);
    assert_eq!(r.metadata, Some(metadata()));
    assert_eq!(r.signature_envelope, Some(env.clone()));
    assert_eq!(r.public_key_hex, env.public_key_hex);
}

#[test]
fn undecodable_metadata_skips_the_envelope() {
    let (signed, _) = signed_binary();
    let r = verify_pumpkin_wasm(
        &signed,
        "given",
        |_: &[u8]| Err("expected value at line 1 column 1".to_string()),
        |_: &[u8]| -> Option<WasmSignatureEnvelope> { panic!("envelope decoded after a metadata error") },
    );
    assert!(!r.is_valid && r.is_signed);
    assert_eq!(
        r.error.as_deref(),
        Some("Failed to parse pumpkin metadata: expected value at line 1 column 1")
    );
    assert_eq!(r.public_key_hex, "given");
}

#[test]
fn plugin_checked_against_missing_market_key() {
    let unsigned = verify_wasm_plugin(&module(), None, decode_metadata_text, |_: &[u8]| None);
    assert!(!unsigned.is_signed && !unsigned.is_valid);
    assert_eq!(unsigned.public_key_hex, "");

    let (signed, env) = signed_binary();
    let envelope = env.clone();
    assert!(is_wasm_signed(&signed, Some(signer_key()), decode_metadata_text, move |_: &[u8]| Some(envelope.clone())));
    let envelope = env.clone();
    assert!(!is_wasm_signed(&signed, None, decode_metadata_text, move |_: &[u8]| Some(envelope.clone())));
    assert!(!is_wasm_signed(&module(), Some("abcd".to_string()), decode_metadata_text, |_: &[u8]| None));
    let r = verify_wasm_plugin(&signed, Some("abcd".to_string()), decode_metadata_text, |_: &[u8]| None);
    assert!(r.is_signed && !r.is_valid);
    assert_eq!(r.public_key_hex, "abcd");
    assert_eq!(
        r.error.as_deref(),
        Some("Invalid Ed25519 public key: signature error: VerifyingKey must be 32 bytes in length")
    );
}

#[test]
fn signing_replaces_pumpkin_sections_before_other_sections() {
    let type_section = vec![0x01u8, 0x01, 0x00];
    let mut wasm = module();
    wasm.extend_from_slice(&custom_section("pumpkin.metadata", b"old"));
    wasm.extend_from_slice(&type_section);
    let mut clean = module();
    clean.extend_from_slice(&type_section);

    let key = KeyManager::new(SEED_HEX);
    let prepared = prepare_pumpkin_injection(&wasm, &metadata_json(), &key).unwrap();
    assert_eq!(prepared.clean_wasm, clean);
    let env = prepared.envelope.clone();
    let signed = assemble_signed_wasm(prepared.clean_wasm, &metadata_json(), &envelope_json(&env));
    let decoded = env.clone();
    let r = verify_pumpkin_wasm(&signed, &signer_key(), decode_metadata_text, move |_: &[u8]| Some(decoded.clone()));
    assert!(r.is_signed && r.is_valid);
    assert_eq!(r.metadata, Some(metadata()));
}

#[test]
fn signature_made_with_another_key_is_not_valid() {
    let (signed, env) = signed_binary();
    let other = KeyManager::new(&"11".repeat(32)).public_key_hex();
    assert_ne!(other, env.public_key_hex);
    let decoded = env.clone();
    let r = verify_pumpkin_wasm(&signed, &other, decode_metadata_text, move |_: &[u8]| Some(decoded.clone()));
    assert!(r.is_signed && !r.is_valid);
    assert_eq!(r.public_key_hex, other);
    assert_eq!(
        r.error.as_deref(),
        Some("Signature verification failed: signature error: Verification equation was not satisfied")
    );
}
