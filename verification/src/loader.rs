//! The WebAssembly plugin loader's own decisions.

use vstd::prelude::*;
use crate::sections::{stripped, strip_pumpkin_sections};
use crate::signature::{PumpkinMetadata, VerificationResult};

verus! {

/// Loader of WebAssembly plugins; checks their signatures when configured to.
pub struct WasmPluginLoader {
    verify_signatures: bool,
}

impl WasmPluginLoader {
    pub fn new(verify_signatures: bool) -> (res: Self)
        ensures
            res.spec_verify_signatures() == verify_signatures,
    {
        Self { verify_signatures }
    }

    /// Whether plugins are checked for a signature before they load.
    pub closed spec fn spec_verify_signatures(&self) -> bool {
        self.verify_signatures
    }

    /// Whether plugins are checked for a signature before they load.
    pub fn verify_signatures(&self) -> (res: bool)
        ensures
            res == self.spec_verify_signatures(),
    {
        self.verify_signatures
    }

    /// Whether a file with this extension is a WebAssembly plugin: the
    /// extension is `wasm` in any mix of ASCII case.
    pub fn can_load_extension(&self, extension: &str) -> (res: bool)
        ensures
            res == is_wasm_extension(extension@),
    {
        let n = extension.unicode_len();
        if n != 4 {
            return false;
        }
        let c0 = extension.get_char(0);
        let c1 = extension.get_char(1);
        let c2 = extension.get_char(2);
        let c3 = extension.get_char(3);
        (c0 == 'w' || c0 == 'W') && (c1 == 'a' || c1 == 'A') && (c2 == 's' || c2 == 'S') && (c3
            == 'm' || c3 == 'M')
    }

    /// Plugins of this loader can always be unloaded.
    pub fn can_unload(&self) -> (res: bool)
        ensures
            res,
    {
        true
    }
}

/// `ext` equals `wasm` ignoring ASCII case.
pub open spec fn is_wasm_extension(ext: Seq<char>) -> bool {
    &&& ext.len() == 4
    &&& (ext[0] == 'w' || ext[0] == 'W')
    &&& (ext[1] == 'a' || ext[1] == 'A')
    &&& (ext[2] == 's' || ext[2] == 'S')
    &&& (ext[3] == 'm' || ext[3] == 'M')
}

/// The ASCII lower-case form of a character: `A` to `Z` become `a` to `z`,
/// and every other character stays as it is.
pub open spec fn ascii_lowercase(c: char) -> char {
    if 'A' <= c && c <= 'Z' {
        ((c as u32) + 32) as char
    } else {
        c
    }
}

/// An extension is `wasm` exactly when its ASCII lower-case form is `wasm`.
pub proof fn lemma_wasm_extension_ignores_case(ext: Seq<char>)
    ensures
        is_wasm_extension(ext) <==> ext.map_values(|c: char| ascii_lowercase(c)) == seq![
            'w',
            'a',
            's',
            'm',
        ],
{
    let lower = ext.map_values(|c: char| ascii_lowercase(c));
    assert(ascii_lowercase('W') == 'w');
    assert(ascii_lowercase('A') == 'a');
    assert(ascii_lowercase('S') == 's');
    assert(ascii_lowercase('M') == 'm');
    if lower == seq!['w', 'a', 's', 'm'] {
        assert(lower.len() == 4);
        assert(lower[0] == 'w' && lower[1] == 'a' && lower[2] == 's' && lower[3] == 'm');
    }
    if is_wasm_extension(ext) {
        assert(lower =~= seq!['w', 'a', 's', 'm']);
    }
}

/// The part of a path's text after its last `/`.
pub open spec fn file_part(path: Seq<char>) -> Seq<char>
    decreases path.len(),
{
    if path.len() == 0 {
        path
    } else if path.last() == '/' {
        Seq::empty()
    } else {
        file_part(path.drop_last()).push(path.last())
    }
}

/// A plain file name: not empty, not `.` or `..`, and without `\`, which
/// separates the parts of a path on some systems.
pub open spec fn plain_file_name(name: Seq<char>) -> bool {
    &&& name.len() > 0
    &&& name != seq!['.']
    &&& name != seq!['.', '.']
    &&& !name.contains('\\')
}

/// The text after the final '.' of a name that holds one.
pub open spec fn after_last_dot(name: Seq<char>) -> Seq<char>
    decreases name.len(),
{
    if name.len() == 0 || name.last() == '.' {
        Seq::empty()
    } else {
        after_last_dot(name.drop_last()).push(name.last())
    }
}

/// The extension of a file name, by the rule `Path::extension` documents:
/// none when the name holds no '.', none when it begins with '.' and holds
/// no other '.', and otherwise the text after the final '.'.
pub open spec fn file_name_extension(name: Seq<char>) -> Option<Seq<char>> {
    if !name.contains('.') {
        None
    } else if name[0] == '.' && !name.drop_first().contains('.') {
        None
    } else {
        Some(after_last_dot(name))
    }
}

/// `std::path::Path::extension` of the path with this text, as text. For a
/// path whose text after its last `/` is a plain file name, this is that
/// name's extension by the rule the standard library documents. For other
/// paths (ending in a separator, or holding `\`, which separates parts on
/// some systems) which part is the file name depends on the system, and the
/// result is left unsaid.
#[verifier::external_body]
fn path_extension(path: &str) -> (res: Option<String>)
    ensures
        plain_file_name(file_part(path@)) ==> match res {
            Some(e) => file_name_extension(file_part(path@)) == Some(e@),
            None => file_name_extension(file_part(path@)) is None,
        },
{
    std::path::Path::new(path).extension().and_then(|e| e.to_str()).map(|e| e.to_string())
}

impl WasmPluginLoader {
    /// Whether this loader can handle the file at `path`: its extension is
    /// `wasm` in any mix of ASCII case.
    pub fn can_load(&self, path: &str) -> (res: bool)
        ensures
            plain_file_name(file_part(path@)) ==> res == match file_name_extension(
                file_part(path@),
            ) {
                Some(e) => is_wasm_extension(e),
                None => false,
            },
    {
        match path_extension(path) {
            Some(e) => self.can_load_extension(e.as_str()),
            None => false,
        }
    }
}

/// Runs `verify` on the plugin bytes and path when signature checking is on,
/// and nothing otherwise.
pub fn maybe_verify_wasm_plugin<T, F: FnOnce(&[u8], &str) -> T>(
    wasm_bytes: &[u8],
    path_str: &str,
    verify_signatures: bool,
    verify: F,
) -> (res: Option<T>)
    requires
        verify_signatures ==> call_requires(verify, (wasm_bytes, path_str)),
    ensures
        res.is_some() == verify_signatures,
        res matches Some(t) ==> call_ensures(verify, (wasm_bytes, path_str), t),
{
    if verify_signatures {
        Some(verify(wasm_bytes, path_str))
    } else {
        None
    }
}

/// The marketplace metadata that loading trusts: that of a binary whose
/// signature was checked and found valid, and none when the signature was not
/// checked, is missing or is invalid.
pub open spec fn trusted_metadata(verification: Option<VerificationResult>) -> Option<PumpkinMetadata> {
    match verification {
        Some(r) => if r.is_signed && r.is_valid {
            r.metadata
        } else {
            None
        },
        None => None,
    }
}

/// Loading trusts marketplace metadata only from a binary whose signature was
/// checked and found present and valid, and then it trusts exactly the
/// metadata of that check.
pub proof fn lemma_trusted_metadata_needs_valid_signature(verification: Option<VerificationResult>)
    ensures
        trusted_metadata(verification) is Some ==> (verification matches Some(r) && r.is_signed
            && r.is_valid && r.metadata == trusted_metadata(verification)),
        (verification matches Some(r) && r.is_signed && r.is_valid) ==> trusted_metadata(
            verification,
        ) == verification->0.metadata,
{
}

/// What loading keeps of a plugin binary, given the result of checking its
/// signature (`None` when signatures are not checked): the trusted
/// marketplace metadata, and the binary without its pumpkin sections, or the
/// binary itself when it cannot be stripped.
pub fn plugin_binary_for_loading(
    wasm_bytes: Vec<u8>,
    verification: Option<VerificationResult>,
) -> (res: (Option<PumpkinMetadata>, Vec<u8>))
    ensures
        res.0 == trusted_metadata(verification),
        res.1@ == match stripped(wasm_bytes@) {
            Some(kept) => kept,
            None => wasm_bytes@,
        },
{
    let metadata = match verification {
        Some(r) => if r.is_signed && r.is_valid {
            r.metadata
        } else {
            None
        },
        None => None,
    };
    let stripped = match strip_pumpkin_sections(wasm_bytes.as_slice()) {
        Ok(clean) => clean,
        Err(_) => wasm_bytes,
    };
    (metadata, stripped)
}

/// Where an outgoing HTTP request of a plugin goes.
#[derive(Clone, Copy, Debug, PartialEq, Eq, Structural)]
pub enum OutboundRoute {
    /// Refused: the plugin lacks the outbound HTTP permission.
    Denied,
    /// Handed to the default HTTP client.
    DefaultClient,
}

/// HTTP hooks of a plugin's WASI context.
pub struct PluginHttpHooks {
    pub allow_outbound: bool,
}

impl PluginHttpHooks {
    /// Hooks that refuse outgoing requests.
    pub fn new() -> (res: Self)
        ensures
            !res.allow_outbound,
    {
        Self { allow_outbound: false }
    }

    /// Where an outgoing request goes: refused unless outbound HTTP is allowed.
    pub fn route_request(&self) -> (res: OutboundRoute)
        ensures
            res == (if self.allow_outbound {
                OutboundRoute::DefaultClient
            } else {
                OutboundRoute::Denied
            }),
    {
        if !self.allow_outbound {
            return OutboundRoute::Denied;
        }
        OutboundRoute::DefaultClient
    }
}

impl Default for PluginHttpHooks {
    fn default() -> (res: Self)
        ensures
            !res.allow_outbound,
    {
        Self::new()
    }
}

} // verus!
