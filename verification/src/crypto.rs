//! Hex text and Ed25519 keys and signatures, as the signature sections use them.

use vstd::prelude::*;
use vstd::utf8::*;
use vstd::string::*;
use ed25519_dalek::{Signature, Signer, SigningKey, Verifier, VerifyingKey};

verus! {

/// Value of one hexadecimal digit, upper or lower case.
pub open spec fn hex_digit_value(b: u8) -> Option<u8> {
    if 48 <= b <= 57 {
        Some((b - 48) as u8)
    } else if 65 <= b <= 70 {
        Some((b - 55) as u8)
    } else if 97 <= b <= 102 {
        Some((b - 87) as u8)
    } else {
        None
    }
}

/// The bytes that a hex text stands for: defined when the text has an even
/// number of bytes, all of them hex digits; each pair of digits is one byte.
pub open spec fn hex_decoded(text: Seq<u8>) -> Option<Seq<u8>> {
    if text.len() % 2 == 0 && forall|i: int|
        0 <= i < text.len() ==> #[trigger] hex_digit_value(text[i]) is Some {
        Some(
            Seq::new(
                text.len() / 2,
                |i: int|
                    (hex_digit_value(text[2 * i])->0 * 16 + hex_digit_value(
                        text[2 * i + 1],
                    )->0) as u8,
            ),
        )
    } else {
        None
    }
}

/// Lower-case hex digit for a value below 16.
pub open spec fn hex_digit_char(v: int) -> char {
    if v < 10 {
        (48 + v) as char
    } else {
        (87 + v) as char
    }
}

/// Lower-case hex text of `data`, two digits per byte, high digit first.
pub open spec fn hex_encoded(data: Seq<u8>) -> Seq<char> {
    Seq::new(
        2 * data.len(),
        |i: int|
            hex_digit_char(
                if i % 2 == 0 {
                    data[i / 2] / 16
                } else {
                    data[i / 2] % 16
                } as int,
            ),
    )
}

/// `hex::decode` on the bytes of `text`: the decoded bytes, or `None` where
/// the crate returns an error (odd length or a byte that is no hex digit).
#[verifier::external_body]
pub(crate) fn decode_hex(text: &str) -> (res: Option<Vec<u8>>)
    ensures
        match res {
            Some(v) => hex_decoded(text.spec_bytes()) == Some(v@),
            None => hex_decoded(text.spec_bytes()) is None,
        },
{
    hex::decode(text).ok()
}

/// `hex::encode`: lower-case hex text of `data`.
#[verifier::external_body]
pub(crate) fn encode_hex(data: &[u8]) -> (res: String)
    ensures
        res@ == hex_encoded(data@),
{
    hex::encode(data)
}

/// Hex text written by the encoder is plain ASCII, so its bytes are its characters.
pub proof fn lemma_hex_encoded_bytes(data: Seq<u8>)
    ensures
        encode_utf8(hex_encoded(data)).len() == hex_encoded(data).len(),
        forall|i: int|
            0 <= i < hex_encoded(data).len() ==> #[trigger] encode_utf8(hex_encoded(data))[i]
                == hex_encoded(data)[i] as u8,
{
    let t = hex_encoded(data);
    assert forall|i: int| 0 <= i < t.len() implies '\0' <= #[trigger] t[i] <= '\u{7f}' by {
        let v = (if i % 2 == 0 {
            data[i / 2] / 16
        } else {
            data[i / 2] % 16
        }) as int;
        assert(0 <= v < 16);
    }
    assert(is_ascii_chars(t));
    is_ascii_chars_encode_utf8(t);
}

/// Decoding gives back what encoding wrote.
pub proof fn lemma_hex_round_trip(data: Seq<u8>)
    ensures
        hex_decoded(encode_utf8(hex_encoded(data))) == Some(data),
{
    let t = hex_encoded(data);
    let b = encode_utf8(t);
    lemma_hex_encoded_bytes(data);
    assert forall|i: int| 0 <= i < b.len() implies #[trigger] hex_digit_value(b[i]) is Some
        && hex_digit_value(b[i])->0 == (if i % 2 == 0 {
        data[i / 2] / 16
    } else {
        data[i / 2] % 16
    }) by {
        assert(b[i] == t[i] as u8);
    }
    let d = hex_decoded(b)->0;
    assert forall|j: int| 0 <= j < data.len() implies d[j] == data[j] by {
        assert(hex_digit_value(b[2 * j]) is Some);
        assert(hex_digit_value(b[2 * j + 1]) is Some);
        assert((2 * j) % 2 == 0 && (2 * j) / 2 == j);
        assert((2 * j + 1) % 2 == 1 && (2 * j + 1) / 2 == j);
    }
    assert(d =~= data);
}

/// Whether `ed25519_dalek::VerifyingKey::from_bytes` accepts these 32 bytes,
/// that is, whether they are the compressed form of a curve point.
pub uninterp spec fn ed25519_point_decompresses(key: Seq<u8>) -> bool;

/// `ed25519_dalek::VerifyingKey::try_from(&[u8])`, keeping only whether it
/// succeeds and the text of its error. The source rejects any length but 32
/// with a length error and otherwise fails exactly when point decompression
/// fails; whether a point decompresses is named, not described.
#[verifier::external_body]
pub(crate) fn check_verifying_key(key: &[u8]) -> (res: Result<(), String>)
    ensures
        res.is_ok() == (key@.len() == 32 && ed25519_point_decompresses(key@)),
        match res {
            Ok(()) => true,
            Err(e) => e@ == if key@.len() != 32 {
                "signature error: VerifyingKey must be 32 bytes in length"@
            } else {
                "signature error: Cannot decompress Edwards point"@
            },
        },

{
    VerifyingKey::try_from(key).map(|_| ()).map_err(|e| e.to_string())
}

/// `ed25519_dalek::Signature::from_slice`: accepts exactly 64 bytes and
/// otherwise fails with an error whose text is "signature error".
#[verifier::external_body]
pub(crate) fn check_signature_bytes(signature: &[u8]) -> (res: Result<(), String>)
    ensures
        res.is_ok() == (signature@.len() == 64),
        res matches Err(e) ==> e@ == "signature error"@,
{
    Signature::from_slice(signature).map(|_| ()).map_err(|e| e.to_string())
}

/// Outcome of `VerifyingKey::verify` for a key, a message and a signature:
/// `None` when the signature is valid, else the text of the error.
pub uninterp spec fn ed25519_verification(
    key: Seq<u8>,
    message: Seq<u8>,
    signature: Seq<u8>,
) -> Option<Seq<char>>;

/// `<ed25519_dalek::VerifyingKey as Verifier>::verify` of `signature` over
/// `message`, with the key and signature built from their bytes. Its outcome
/// is named; the source fails only with a non-canonical scalar or with a
/// failed verification equation, and the two error texts are stated.
#[verifier::external_body]
pub(crate) fn verify_ed25519(key: &[u8], message: &[u8], signature: &[u8]) -> (res: Result<
    (),
    String,
>)
    requires
        key@.len() == 32,
        ed25519_point_decompresses(key@),
        signature@.len() == 64,
    ensures
        match res {
            Ok(()) => ed25519_verification(key@, message@, signature@) is None,
            Err(e) => ed25519_verification(key@, message@, signature@) == Some(e@),
        },
        res matches Err(e) ==> (e@ == "signature error: Cannot use scalar with high-bit set"@
            || e@ == "signature error: Verification equation was not satisfied"@),
{
    let key = match VerifyingKey::try_from(key) {
        Ok(k) => k,
        Err(e) => return Err(e.to_string()),
    };
    let signature = match Signature::from_slice(signature) {
        Ok(s) => s,
        Err(e) => return Err(e.to_string()),
    };
    key.verify(message, &signature).map_err(|e| e.to_string())
}

/// The 32-byte public key of the Ed25519 signing key with this seed.
pub uninterp spec fn ed25519_public_key(seed: Seq<u8>) -> Seq<u8>;

/// The deterministic Ed25519 signature of `message` under the signing key with this seed.
pub uninterp spec fn ed25519_signature(seed: Seq<u8>, message: Seq<u8>) -> Seq<u8>;

/// `SigningKey::from_bytes(seed).verifying_key().to_bytes()`: a 32-byte
/// public key, the compression of a point, which therefore decompresses.
#[verifier::external_body]
fn derive_public_key(seed: &[u8]) -> (res: Vec<u8>)
    requires
        seed@.len() == 32,
    ensures
        res@ == ed25519_public_key(seed@),
        res@.len() == 32,
        ed25519_point_decompresses(res@),
{
    let mut bytes = [0u8; 32];
    bytes.copy_from_slice(seed);
    SigningKey::from_bytes(&bytes).verifying_key().to_bytes().to_vec()
}

/// `SigningKey::from_bytes(seed).sign(message).to_bytes()`: a 64-byte
/// signature that the matching public key accepts for that message.
#[verifier::external_body]
fn sign_ed25519(seed: &[u8], message: &[u8]) -> (res: Vec<u8>)
    requires
        seed@.len() == 32,
    ensures
        res@ == ed25519_signature(seed@, message@),
        res@.len() == 64,
        ed25519_verification(ed25519_public_key(seed@), message@, res@) is None,
{
    let mut bytes = [0u8; 32];
    bytes.copy_from_slice(seed);
    SigningKey::from_bytes(&bytes).sign(message).to_bytes().to_vec()
}

/// The seed that `KeyManager::new` takes from its hex text: the decoded bytes
/// when they are exactly 32, else 32 zero bytes.
pub open spec fn key_seed_from_hex(text: Seq<u8>) -> Seq<u8> {
    match hex_decoded(text) {
        Some(b) => if b.len() == 32 {
            b
        } else {
            Seq::new(32, |i: int| 0u8)
        },
        None => Seq::new(32, |i: int| 0u8),
    }
}

/// An Ed25519 signing key, kept as its 32-byte seed, for signing plugin binaries.
pub struct KeyManager {
    seed: Vec<u8>,
}

impl View for KeyManager {
    type V = Seq<u8>;

    /// The seed of the signing key.
    closed spec fn view(&self) -> Seq<u8> {
        self.seed@
    }
}

impl KeyManager {
    #[verifier::type_invariant]
    spec fn seed_is_32_bytes(self) -> bool {
        self.seed@.len() == 32
    }

    /// Loads an Ed25519 signing key from the hex text of its 32-byte seed; any
    /// text that is not exactly that gives the key with the all-zero seed.
    pub fn new(secret_hex: &str) -> (res: Self)
        ensures
            res@ == key_seed_from_hex(secret_hex.spec_bytes()),
            res@.len() == 32,
    {
        let mut seed: Vec<u8> = vec![0u8; 32];
        if let Some(decoded) = decode_hex(secret_hex) {
            if decoded.len() == 32 {
                seed = decoded;
            }
        }
        assert(seed@ =~= key_seed_from_hex(secret_hex.spec_bytes()));
        KeyManager { seed }
    }

    /// Lower-case hex text of the public key.
    pub fn public_key_hex(&self) -> (res: String)
        ensures
            res@ == hex_encoded(ed25519_public_key(self@)),
            ed25519_public_key(self@).len() == 32,
            ed25519_point_decompresses(ed25519_public_key(self@)),
    {
        proof {
            use_type_invariant(self);
        }
        let key = derive_public_key(self.seed.as_slice());
        encode_hex(key.as_slice())
    }

    /// Signs `data`, returning the 64 signature bytes.
    pub fn sign(&self, data: &[u8]) -> (res: Vec<u8>)
        ensures
            res@ == ed25519_signature(self@, data@),
            res@.len() == 64,
            ed25519_verification(ed25519_public_key(self@), data@, res@) is None,
    {
        proof {
            use_type_invariant(self);
        }
        sign_ed25519(self.seed.as_slice(), data)
    }
}

} // verus!
