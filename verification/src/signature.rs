//! Signing plugin binaries and checking their signatures.
//!
//! A signed plugin carries two custom sections: `pumpkin.metadata`, the JSON
//! text of its marketplace metadata, and `wasm_signature`, the JSON text of an
//! envelope holding an Ed25519 public key and the signature, both in hex, of
//! the stripped binary followed by the metadata text. Checking a binary
//! ([`verify_pumpkin_wasm`]) runs in two steps around the decoding of that JSON
//! text, which functions given by the caller do: [`inspect_wasm_signature`]
//! finds the sections, and [`finish_wasm_verification`] checks the signature
//! once the metadata and the envelope are decoded. Signing likewise runs in
//! two steps around the encoding of the envelope as JSON text.

use vstd::prelude::*;
use vstd::slice::*;
use vstd::string::*;
use vstd::utf8::*;
use crate::crypto::{
    KeyManager, check_signature_bytes, check_verifying_key, decode_hex, ed25519_point_decompresses,
    ed25519_public_key, ed25519_signature, ed25519_verification, encode_hex, hex_decoded,
    hex_encoded, lemma_hex_round_trip,
};
use crate::sections::{
    PUMPKIN_METADATA_SECTION, WASM_SIGNATURE_SECTION, PayloadView, ScannedPayload, custom_section_bytes, parsed_pumpkin_sections,
    scan_trailing_sections, strip_point, stripped, view_opt, wasm_payloads, lemma_signed_sections_read_back,
};

verus! {

/// Marketplace metadata of a plugin, as stored in its `pumpkin.metadata` section.
#[derive(Debug, Clone, PartialEq)]
pub struct PumpkinMetadata {
    pub marketplace_url: String,
    pub plugin_id: i64,
    pub plugin_name: String,
    pub version: String,
    pub dev_id: i64,
    pub dev_name: String,
    pub is_paid: bool,
    pub user_id: i64,
    pub license_key: Option<String>,
    pub issued_at: String,
}

/// Standard W3C Wasm-Sign signature envelope structure.
#[derive(Debug, Clone, PartialEq)]
pub struct WasmSignatureEnvelope {
    pub version: u8,
    pub algorithm: String,
    pub public_key_hex: String,
    pub signature_hex: String,
}

/// Verification result for inspecting a WASM binary.
#[derive(Debug, Clone, PartialEq)]
pub struct VerificationResult {
    pub is_valid: bool,
    pub is_signed: bool,
    pub error: Option<String>,
    pub metadata: Option<PumpkinMetadata>,
    pub signature_envelope: Option<WasmSignatureEnvelope>,
    pub public_key_hex: String,
}

/// The text of an optional string.
pub open spec fn text_opt(s: Option<String>) -> Option<Seq<char>> {
    match s {
        Some(t) => Some(t@),
        None => None,
    }
}

/// `res` holds exactly these values.
pub open spec fn result_is(
    res: VerificationResult,
    is_valid: bool,
    is_signed: bool,
    error: Option<Seq<char>>,
    metadata: Option<PumpkinMetadata>,
    envelope: Option<WasmSignatureEnvelope>,
    public_key_hex: Seq<char>,
) -> bool {
    &&& res.is_valid == is_valid
    &&& res.is_signed == is_signed
    &&& text_opt(res.error) == error
    &&& res.metadata == metadata
    &&& res.signature_envelope == envelope
    &&& res.public_key_hex@ == public_key_hex
}

/// The metadata and signature section contents of a binary: those the parser
/// reports, the last of each name winning; when one of the two is missing,
/// the bytes after the end of the last header or section that is not a
/// pumpkin section are also read as raw sections.
pub open spec fn located_sections(bytes: Seq<u8>) -> (Option<Seq<u8>>, Option<Seq<u8>>) {
    let parsed = parsed_pumpkin_sections(wasm_payloads(bytes), (None, None));
    if parsed.0 is Some && parsed.1 is Some {
        parsed
    } else {
        let cut = strip_point(bytes);
        if cut < bytes.len() {
            scan_trailing_sections(bytes.skip(cut as int), parsed)
        } else {
            parsed
        }
    }
}

/// A binary whose sections were found, waiting for its metadata and envelope
/// text to be decoded.
pub struct PendingVerification {
    /// The binary without its pumpkin sections.
    pub clean_wasm: Vec<u8>,
    /// Contents of the `pumpkin.metadata` section.
    pub metadata_bytes: Vec<u8>,
    /// Contents of the signature section.
    pub signature_bytes: Vec<u8>,
    /// The public key to check against when the signature carries none.
    pub public_key_hex: String,
}

/// Outcome of the first step of checking a binary.
pub enum SignatureInspection {
    /// The answer is known without decoding anything.
    Decided(VerificationResult),
    /// Both sections were found; their contents must be decoded.
    NeedsDecoding(PendingVerification),
}

/// Error text when a section of the binary ends past its end.
pub open spec fn structure_error_text() -> Seq<char> {
    "Failed to parse WASM structure: "@ + "a section ends past the end of the binary"@
}

/// Error text of an unsigned binary.
pub open spec fn unsigned_error_text() -> Seq<char> {
    "WASM does not contain Pumpkin Market metadata or standard wasm_signature custom sections."@
}

/// First step of checking a plugin binary: strips it, finds its metadata and
/// signature sections, and either decides the result (the binary cannot be
/// stripped, or one of the sections is missing) or hands back what must be
/// decoded.
pub fn inspect_wasm_signature(wasm_bytes: &[u8], public_key_hex: &str) -> (res: SignatureInspection)
    ensures
        stripped(wasm_bytes@) is None ==> (res matches SignatureInspection::Decided(r) && result_is(
            r,
            false,
            false,
            Some(structure_error_text()),
            None,
            None,
            public_key_hex@,
        )),
        stripped(wasm_bytes@) is Some && (located_sections(wasm_bytes@).0 is None
            || located_sections(wasm_bytes@).1 is None) ==> (res matches SignatureInspection::Decided(
            r,
        ) && result_is(r, false, false, Some(unsigned_error_text()), None, None, public_key_hex@)),
        stripped(wasm_bytes@) is Some && located_sections(wasm_bytes@).0 is Some
            && located_sections(wasm_bytes@).1 is Some ==> (res matches SignatureInspection::NeedsDecoding(
            p,
        ) && Some(p.clean_wasm@) == stripped(wasm_bytes@) && Some(p.metadata_bytes@)
            == located_sections(wasm_bytes@).0 && Some(p.signature_bytes@) == located_sections(
            wasm_bytes@,
        ).1 && p.public_key_hex@ == public_key_hex@),
{
    let clean_wasm = match crate::sections::strip_pumpkin_sections(wasm_bytes) {
        Ok(w) => w,
        Err(e) => {
            let error = String::from_str("Failed to parse WASM structure: ").concat(e.as_str());
            return SignatureInspection::Decided(
                VerificationResult {
                    is_valid: false,
                    is_signed: false,
                    error: Some(error),
                    metadata: None,
                    signature_envelope: None,
                    public_key_hex: public_key_hex.to_string(),
                },
            );
        },
    };
    let payloads = crate::sections::scan_wasm_payloads(wasm_bytes);
    let (mut metadata_raw, mut signature_raw) = crate::sections::collect_parsed_sections(&payloads);
    if metadata_raw.is_none() || signature_raw.is_none() {
        let start = crate::sections::trailing_start(wasm_bytes, &payloads);
        if start < wasm_bytes.len() as u64 {
            let trailing = slice_subrange(wasm_bytes, start as usize, wasm_bytes.len());
            proof {
                assert(trailing@ =~= wasm_bytes@.skip(start as int));
            }
            let found = crate::sections::scan_trailing_sections_exec(
                trailing,
                metadata_raw,
                signature_raw,
            );
            metadata_raw = found.0;
            signature_raw = found.1;
        }
    }
    match (metadata_raw, signature_raw) {
        (Some(metadata_bytes), Some(signature_bytes)) => SignatureInspection::NeedsDecoding(
            PendingVerification {
                clean_wasm,
                metadata_bytes,
                signature_bytes,
                public_key_hex: public_key_hex.to_string(),
            },
        ),
        _ => SignatureInspection::Decided(
            VerificationResult {
                is_valid: false,
                is_signed: false,
                error: Some(
                    String::from_str(
                        "WASM does not contain Pumpkin Market metadata or standard wasm_signature custom sections.",
                    ),
                ),
                metadata: None,
                signature_envelope: None,
                public_key_hex: public_key_hex.to_string(),
            },
        ),
    }
}

/// Text of the error `VerifyingKey::try_from` gives for bytes that are not a key.
pub open spec fn key_error_text(key: Seq<u8>) -> Seq<char> {
    if key.len() != 32 {
        "signature error: VerifyingKey must be 32 bytes in length"@
    } else {
        "signature error: Cannot decompress Edwards point"@
    }
}

/// Checking signature bytes `signature` over `message` under public key `key`:
/// `None` when the signature is valid, else the error text of the result.
pub open spec fn signature_check_error(
    key: Seq<u8>,
    message: Seq<u8>,
    signature: Seq<u8>,
) -> Option<Seq<char>> {
    if !(key.len() == 32 && ed25519_point_decompresses(key)) {
        Some("Invalid Ed25519 public key: "@ + key_error_text(key))
    } else if signature.len() != 64 {
        Some("Invalid signature bytes: "@ + "signature error"@)
    } else {
        match ed25519_verification(key, message, signature) {
            Some(e) => Some("Signature verification failed: "@ + e),
            None => None,
        }
    }
}

/// The envelope carries a signature text that is not hex.
pub open spec fn envelope_signature_unreadable(envelope: Option<WasmSignatureEnvelope>) -> bool {
    match envelope {
        Some(env) => hex_decoded(encode_utf8(env.signature_hex@)) is None,
        None => false,
    }
}

/// The signature bytes to check: decoded from the envelope when there is one,
/// else the raw contents of the signature section.
pub open spec fn signature_to_check(
    section: Seq<u8>,
    envelope: Option<WasmSignatureEnvelope>,
) -> Option<Seq<u8>> {
    match envelope {
        Some(env) => hex_decoded(encode_utf8(env.signature_hex@)),
        None => Some(section),
    }
}

/// Error of checking a binary whose metadata decoded: `None` when the
/// signature over the stripped binary followed by the metadata text is valid.
pub open spec fn decoded_signature_error(
    clean_wasm: Seq<u8>,
    metadata_bytes: Seq<u8>,
    signature_bytes: Seq<u8>,
    given_key: Seq<char>,
    envelope: Option<WasmSignatureEnvelope>,
) -> Option<Seq<char>> {
    match signature_to_check(signature_bytes, envelope) {
        None => Some("Invalid signature hex inside signature envelope."@),
        Some(signature) => match hex_decoded(encode_utf8(given_key)) {
            None => Some("Invalid public key hex format."@),
            Some(key) => signature_check_error(key, clean_wasm + metadata_bytes, signature),
        },
    }
}

/// What checking yields once the metadata and signature sections of a binary
/// are decoded: `clean_wasm` is the stripped binary, `metadata_bytes` and
/// `signature_bytes` the contents of the two sections, `given_key` the key
/// given for checking, `metadata` the metadata or the text of its decoding
/// error, and `envelope` the envelope when the signature section decodes as
/// one (else the section's raw bytes are the signature).
pub open spec fn decoded_result_is(
    res: VerificationResult,
    clean_wasm: Seq<u8>,
    metadata_bytes: Seq<u8>,
    signature_bytes: Seq<u8>,
    given_key: Seq<char>,
    metadata: Result<PumpkinMetadata, String>,
    envelope: Option<WasmSignatureEnvelope>,
) -> bool {
    match metadata {
        Err(e) => result_is(
            res,
            false,
            true,
            Some("Failed to parse pumpkin metadata: "@ + e@),
            None,
            None,
            given_key,
        ),
        Ok(meta) => {
            let err = decoded_signature_error(
                clean_wasm,
                metadata_bytes,
                signature_bytes,
                given_key,
                envelope,
            );
            if envelope_signature_unreadable(envelope) {
                result_is(res, false, true, err, Some(meta), None, given_key)
            } else {
                result_is(
                    res,
                    err is None,
                    true,
                    err,
                    Some(meta),
                    envelope,
                    given_key,
                )
            }
        },
    }
}

/// Second step of checking a plugin binary, given what decoding the JSON text
/// of its two sections gave: the metadata or the text of the decoding error,
/// and the envelope when the signature section decodes as one (else the
/// section's raw bytes are the signature). The result is signed in every case;
/// it is valid exactly when the Ed25519 signature of the stripped binary
/// followed by the metadata text checks out under the given public key. The
/// key an envelope carries is not trusted: a binary signed with any other key
/// is not valid.
pub fn finish_wasm_verification(
    pending: PendingVerification,
    metadata: Result<PumpkinMetadata, String>,
    envelope: Option<WasmSignatureEnvelope>,
) -> (res: VerificationResult)
    ensures
        decoded_result_is(
            res,
            pending.clean_wasm@,
            pending.metadata_bytes@,
            pending.signature_bytes@,
            pending.public_key_hex@,
            metadata,
            envelope,
        ),
{
    let meta = match metadata {
        Ok(m) => m,
        Err(e) => {
            return VerificationResult {
                is_valid: false,
                is_signed: true,
                error: Some(String::from_str("Failed to parse pumpkin metadata: ").concat(e.as_str())),
                metadata: None,
                signature_envelope: None,
                public_key_hex: pending.public_key_hex,
            };
        },
    };
    let raw_signature = match &envelope {
        Some(env) => match decode_hex(env.signature_hex.as_str()) {
            Some(bytes) => bytes,
            None => {
                return VerificationResult {
                    is_valid: false,
                    is_signed: true,
                    error: Some(String::from_str("Invalid signature hex inside signature envelope.")),
                    metadata: Some(meta),
                    signature_envelope: None,
                    public_key_hex: pending.public_key_hex,
                };
            },
        },
        None => pending.signature_bytes,
    };
    let mut sign_payload = pending.clean_wasm;
    let mut metadata_bytes = pending.metadata_bytes;
    let ghost metadata_view = metadata_bytes@;
    let ghost clean_view = sign_payload@;
    sign_payload.append(&mut metadata_bytes);
    let target_key = pending.public_key_hex;
    let key_bytes = match decode_hex(target_key.as_str()) {
        Some(bytes) => bytes,
        None => {
            return VerificationResult {
                is_valid: false,
                is_signed: true,
                error: Some(String::from_str("Invalid public key hex format.")),
                metadata: Some(meta),
                signature_envelope: envelope,
                public_key_hex: target_key,
            };
        },
    };
    if let Err(e) = check_verifying_key(key_bytes.as_slice()) {
        return VerificationResult {
            is_valid: false,
            is_signed: true,
            error: Some(String::from_str("Invalid Ed25519 public key: ").concat(e.as_str())),
            metadata: Some(meta),
            signature_envelope: envelope,
            public_key_hex: target_key,
        };
    }
    if let Err(e) = check_signature_bytes(raw_signature.as_slice()) {
        return VerificationResult {
            is_valid: false,
            is_signed: true,
            error: Some(String::from_str("Invalid signature bytes: ").concat(e.as_str())),
            metadata: Some(meta),
            signature_envelope: envelope,
            public_key_hex: target_key,
        };
    }
    assert(sign_payload@ == clean_view + metadata_view);
    match crate::crypto::verify_ed25519(
        key_bytes.as_slice(),
        sign_payload.as_slice(),
        raw_signature.as_slice(),
    ) {
        Err(e) => VerificationResult {
            is_valid: false,
            is_signed: true,
            error: Some(String::from_str("Signature verification failed: ").concat(e.as_str())),
            metadata: Some(meta),
            signature_envelope: envelope,
            public_key_hex: target_key,
        },
        Ok(()) => VerificationResult {
            is_valid: true,
            is_signed: true,
            error: None,
            metadata: Some(meta),
            signature_envelope: envelope,
            public_key_hex: target_key,
        },
    }
}

/// What checking `bytes` against `given_key` yields, where `decode_metadata`
/// decodes the JSON text of the metadata section and `decode_envelope` that of
/// the signature section (the latter is asked only once the metadata decoded).
pub open spec fn verification_outcome<M, E>(
    res: VerificationResult,
    bytes: Seq<u8>,
    given_key: Seq<char>,
    decode_metadata: M,
    decode_envelope: E,
) -> bool where
    M: FnOnce(&[u8]) -> Result<PumpkinMetadata, String>,
    E: FnOnce(&[u8]) -> Option<WasmSignatureEnvelope>,
 {
    if stripped(bytes) is None {
        result_is(res, false, false, Some(structure_error_text()), None, None, given_key)
    } else if located_sections(bytes).0 is None || located_sections(bytes).1 is None {
        result_is(res, false, false, Some(unsigned_error_text()), None, None, given_key)
    } else {
        let clean_wasm = stripped(bytes)->Some_0;
        let metadata_bytes = located_sections(bytes).0.unwrap();
        let signature_bytes = located_sections(bytes).1.unwrap();
        exists|metadata_text: &[u8], metadata: Result<PumpkinMetadata, String>|
            #[trigger] call_ensures(decode_metadata, (metadata_text,), metadata) && metadata_text@
                == metadata_bytes && match metadata {
                Err(_) => decoded_result_is(
                    res,
                    clean_wasm,
                    metadata_bytes,
                    signature_bytes,
                    given_key,
                    metadata,
                    None,
                ),
                Ok(_) => exists|
                    signature_text: &[u8],
                    envelope: Option<WasmSignatureEnvelope>,
                |
                    #[trigger] call_ensures(decode_envelope, (signature_text,), envelope)
                        && signature_text@ == signature_bytes && decoded_result_is(
                        res,
                        clean_wasm,
                        metadata_bytes,
                        signature_bytes,
                        given_key,
                        metadata,
                        envelope,
                    ),
            }
    }
}

/// Checks the pumpkin sections of a plugin binary against a public key given
/// in hex: the binary is stripped, its metadata and signature sections are
/// found, their JSON text is decoded by the two functions given, and the
/// Ed25519 signature of the stripped binary followed by the metadata text is
/// checked under the given public key, whatever key the envelope names.
pub fn verify_pumpkin_wasm<M, E>(
    wasm_bytes: &[u8],
    public_key_hex: &str,
    decode_metadata: M,
    decode_envelope: E,
) -> (res: VerificationResult) where
    M: FnOnce(&[u8]) -> Result<PumpkinMetadata, String>,
    E: FnOnce(&[u8]) -> Option<WasmSignatureEnvelope>,

    requires
        forall|text: &[u8]| #[trigger] call_requires(decode_metadata, (text,)),
        forall|text: &[u8]| #[trigger] call_requires(decode_envelope, (text,)),
    ensures
        verification_outcome(res, wasm_bytes@, public_key_hex@, decode_metadata, decode_envelope),
{
    match inspect_wasm_signature(wasm_bytes, public_key_hex) {
        SignatureInspection::Decided(r) => r,
        SignatureInspection::NeedsDecoding(pending) => {
            let metadata = decode_metadata(pending.metadata_bytes.as_slice());
            match metadata {
                Err(_) => finish_wasm_verification(pending, metadata, None),
                Ok(_) => {
                    let envelope = decode_envelope(pending.signature_bytes.as_slice());
                    finish_wasm_verification(pending, metadata, envelope)
                },
            }
        },
    }
}

/// The key text that plugins are checked against: the marketplace's public
/// key when it could be fetched, else the empty text.
pub open spec fn market_key_text(market_public_key: Option<String>) -> Seq<char> {
    match market_public_key {
        Some(key) => key@,
        None => Seq::empty(),
    }
}

/// Checks a plugin binary against the marketplace's public key, which the
/// caller fetched (`None` when fetching failed, in which case the binary is
/// checked against the empty key).
pub fn verify_wasm_plugin<M, E>(
    wasm_bytes: &[u8],
    market_public_key: Option<String>,
    decode_metadata: M,
    decode_envelope: E,
) -> (res: VerificationResult) where
    M: FnOnce(&[u8]) -> Result<PumpkinMetadata, String>,
    E: FnOnce(&[u8]) -> Option<WasmSignatureEnvelope>,

    requires
        forall|text: &[u8]| #[trigger] call_requires(decode_metadata, (text,)),
        forall|text: &[u8]| #[trigger] call_requires(decode_envelope, (text,)),
    ensures
        verification_outcome(
            res,
            wasm_bytes@,
            market_key_text(market_public_key),
            decode_metadata,
            decode_envelope,
        ),
{
    let public_key = match market_public_key {
        Some(key) => key,
        None => String::new(),
    };
    verify_pumpkin_wasm(wasm_bytes, public_key.as_str(), decode_metadata, decode_envelope)
}

/// Whether a plugin binary carries a valid signature: checked as
/// [`verify_wasm_plugin`] checks it, the result is both signed and valid.
pub fn is_wasm_signed<M, E>(
    wasm_bytes: &[u8],
    market_public_key: Option<String>,
    decode_metadata: M,
    decode_envelope: E,
) -> (res: bool) where
    M: FnOnce(&[u8]) -> Result<PumpkinMetadata, String>,
    E: FnOnce(&[u8]) -> Option<WasmSignatureEnvelope>,

    requires
        forall|text: &[u8]| #[trigger] call_requires(decode_metadata, (text,)),
        forall|text: &[u8]| #[trigger] call_requires(decode_envelope, (text,)),
    ensures
        exists|checked: VerificationResult|
            #[trigger] verification_outcome(
                checked,
                wasm_bytes@,
                market_key_text(market_public_key),
                decode_metadata,
                decode_envelope,
            ) && res == (checked.is_signed && checked.is_valid),
{
    let checked = verify_wasm_plugin(wasm_bytes, market_public_key, decode_metadata, decode_envelope);
    checked.is_signed && checked.is_valid
}

/// The envelope's key and signature are hex texts of a valid Ed25519 public
/// key and of a 64-byte signature that this key accepts for `message`.
pub open spec fn envelope_vouches_for(env: WasmSignatureEnvelope, message: Seq<u8>) -> bool {
    match (
        hex_decoded(encode_utf8(env.public_key_hex@)),
        hex_decoded(encode_utf8(env.signature_hex@)),
    ) {
        (Some(key), Some(signature)) => {
            &&& key.len() == 32
            &&& ed25519_point_decompresses(key)
            &&& signature.len() == 64
            &&& ed25519_verification(key, message, signature) is None
        },
        _ => false,
    }
}

/// What signing prepares: the stripped binary and the signature envelope,
/// which the caller encodes as JSON text for the signature section.
pub struct PreparedInjection {
    pub clean_wasm: Vec<u8>,
    pub envelope: WasmSignatureEnvelope,
}

/// First step of signing a plugin binary, given the JSON text of its metadata:
/// strips the binary and signs the stripped binary followed by that text.
/// The envelope names the algorithm "Ed25519", carries the signer's public key
/// and the signature in lower-case hex, and vouches for what was signed.
pub fn prepare_pumpkin_injection(
    wasm_bytes: &[u8],
    metadata_json: &[u8],
    key_manager: &KeyManager,
) -> (res: Result<PreparedInjection, String>)
    ensures
        stripped(wasm_bytes@) is None ==> (res matches Err(e) && e@
            == "a section ends past the end of the binary"@),
        stripped(wasm_bytes@) is Some ==> (res matches Ok(p) && Some(p.clean_wasm@)
            == stripped(wasm_bytes@) && p.envelope.version == 1
            && p.envelope.algorithm@ == "Ed25519"@ && p.envelope.public_key_hex@ == hex_encoded(
            ed25519_public_key(key_manager@),
        ) && p.envelope.signature_hex@ == hex_encoded(
            ed25519_signature(key_manager@, p.clean_wasm@ + metadata_json@),
        ) && envelope_vouches_for(p.envelope, p.clean_wasm@ + metadata_json@)),
{
    let clean_wasm = crate::sections::strip_pumpkin_sections(wasm_bytes)?;
    let mut sign_payload = slice_to_vec(clean_wasm.as_slice());
    let mut metadata_copy = slice_to_vec(metadata_json);
    sign_payload.append(&mut metadata_copy);
    let raw_signature = key_manager.sign(sign_payload.as_slice());
    let public_key_hex = key_manager.public_key_hex();
    let signature_hex = encode_hex(raw_signature.as_slice());
    proof {
        lemma_hex_round_trip(ed25519_public_key(key_manager@));
        lemma_hex_round_trip(raw_signature@);
    }
    let envelope = WasmSignatureEnvelope {
        version: 1,
        algorithm: String::from_str("Ed25519"),
        public_key_hex,
        signature_hex,
    };
    Ok(PreparedInjection { clean_wasm, envelope })
}

/// Second step of signing: appends to the stripped binary a `pumpkin.metadata`
/// section holding the metadata text and a `wasm_signature` section holding
/// the envelope's text, each as `wasm_encoder` writes a custom section.
pub fn assemble_signed_wasm(
    clean_wasm: Vec<u8>,
    metadata_json: &[u8],
    signature_json: &[u8],
) -> (res: Vec<u8>)
    requires
        metadata_json@.len() + 17 <= u32::MAX,
        signature_json@.len() + 15 <= u32::MAX,
    ensures
        res@ == clean_wasm@ + custom_section_bytes(
            encode_utf8(PUMPKIN_METADATA_SECTION@),
            metadata_json@,
        ) + custom_section_bytes(encode_utf8(WASM_SIGNATURE_SECTION@), signature_json@),
{
    proof {
        crate::sections::lemma_section_name_bytes();
        crate::leb128::lemma_decode_encoded(16, Seq::<u8>::empty());
        crate::leb128::lemma_decode_encoded(14, Seq::<u8>::empty());
    }
    let mut out = clean_wasm;
    crate::sections::encode_custom_section(&mut out, PUMPKIN_METADATA_SECTION, metadata_json);
    crate::sections::encode_custom_section(&mut out, WASM_SIGNATURE_SECTION, signature_json);
    out
}

/// A binary signed by [`prepare_pumpkin_injection`] checks out: once its
/// metadata decodes and its signature section decodes to the envelope that
/// signing made, the signature of the stripped binary followed by the
/// metadata text is valid under the signer's public key.
pub proof fn lemma_vouched_signature_verifies(
    clean_wasm: Seq<u8>,
    metadata_bytes: Seq<u8>,
    signature_bytes: Seq<u8>,
    given_key: Seq<char>,
    envelope: WasmSignatureEnvelope,
)
    requires
        envelope_vouches_for(envelope, clean_wasm + metadata_bytes),
        given_key == envelope.public_key_hex@,
    ensures
        !envelope_signature_unreadable(Some(envelope)),
        decoded_signature_error(
            clean_wasm,
            metadata_bytes,
            signature_bytes,
            given_key,
            Some(envelope),
        ) is None,
{
}

/// The bytes that signing makes of a stripped binary: the binary, then the
/// metadata section, then the signature section.
pub open spec fn signed_binary(
    clean_wasm: Seq<u8>,
    metadata_json: Seq<u8>,
    signature_json: Seq<u8>,
) -> Seq<u8> {
    clean_wasm + custom_section_bytes(encode_utf8(PUMPKIN_METADATA_SECTION@), metadata_json)
        + custom_section_bytes(encode_utf8(WASM_SIGNATURE_SECTION@), signature_json)
}

/// A binary that signing produced checks out. Take a signed binary that
/// stripping turns back into the binary that was signed, on which the parser
/// keeps that binary whole and stops at the appended sections, and which it
/// does not itself report both pumpkin sections of; once the text
/// of its two sections decodes to the metadata and to an envelope that vouches
/// for the stripped binary followed by that text, as the one signing made
/// does, checking it against the signer's public key gives a signed, valid
/// result that carries the metadata and the envelope.
pub proof fn lemma_signed_binary_verifies<M, E>(
    clean_wasm: Seq<u8>,
    metadata_json: Seq<u8>,
    signature_json: Seq<u8>,
    given_key: Seq<char>,
    metadata: PumpkinMetadata,
    envelope: WasmSignatureEnvelope,
    decode_metadata: M,
    decode_envelope: E,
    res: VerificationResult,
) where
    M: FnOnce(&[u8]) -> Result<PumpkinMetadata, String>,
    E: FnOnce(&[u8]) -> Option<WasmSignatureEnvelope>,

    requires
        metadata_json.len() + 32 <= u32::MAX,
        signature_json.len() + 32 <= u32::MAX,
        stripped(signed_binary(clean_wasm, metadata_json, signature_json)) == Some(clean_wasm),
        strip_point(signed_binary(clean_wasm, metadata_json, signature_json)) == clean_wasm.len(),
        !({
            let parsed = parsed_pumpkin_sections(
                wasm_payloads(signed_binary(clean_wasm, metadata_json, signature_json)),
                (None, None),
            );
            parsed.0 is Some && parsed.1 is Some
        }),
        envelope_vouches_for(envelope, clean_wasm + metadata_json),
        given_key == envelope.public_key_hex@,
        forall|text: &[u8], r: Result<PumpkinMetadata, String>|
            #[trigger] call_ensures(decode_metadata, (text,), r) && text@ == metadata_json ==> r
                == Ok::<PumpkinMetadata, String>(metadata),
        forall|text: &[u8], r: Option<WasmSignatureEnvelope>|
            #[trigger] call_ensures(decode_envelope, (text,), r) && text@ == signature_json ==> r
                == Some(envelope),
        verification_outcome(
            res,
            signed_binary(clean_wasm, metadata_json, signature_json),
            given_key,
            decode_metadata,
            decode_envelope,
        ),
    ensures
        res.is_signed,
        res.is_valid,
        res.error is None,
        res.metadata == Some(metadata),
        res.signature_envelope == Some(envelope),
        res.public_key_hex@ == envelope.public_key_hex@,
{
    let signed = signed_binary(clean_wasm, metadata_json, signature_json);
    let sections = custom_section_bytes(encode_utf8(PUMPKIN_METADATA_SECTION@), metadata_json)
        + custom_section_bytes(encode_utf8(WASM_SIGNATURE_SECTION@), signature_json);
    let parsed = parsed_pumpkin_sections(wasm_payloads(signed), (None, None));
    assert(signed =~= clean_wasm + sections);
    assert(signed.skip(clean_wasm.len() as int) =~= sections);
    assert(signed.take(clean_wasm.len() as int) =~= clean_wasm);
    lemma_signed_sections_read_back(metadata_json, signature_json, parsed);
    assert(sections.len() > 0);
    assert(located_sections(signed) == (Some(metadata_json), Some(signature_json)));
    lemma_vouched_signature_verifies(
        clean_wasm,
        metadata_json,
        signature_json,
        given_key,
        envelope,
    );
}

} // verus!
