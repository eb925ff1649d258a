//! Locating, removing and appending the custom sections that carry a plugin's
//! marketplace metadata and its signature.

use vstd::prelude::*;
use vstd::slice::*;
use vstd::utf8::*;
use vstd::string::*;
use wasm_encoder::{CustomSection, Encode};
use wasmparser::{Parser, Payload};
use crate::leb128::{decode_leb128, leb128_encode, read_leb128};
use crate::text::str_eq;

verus! {

/// Name of the custom section that holds the plugin's marketplace metadata.
pub const PUMPKIN_METADATA_SECTION: &'static str = "pumpkin.metadata";

/// Name of the standard custom section that holds the signature envelope.
pub const WASM_SIGNATURE_SECTION: &'static str = "wasm_signature";

/// Older name of the signature section, still recognised when reading.
pub const LEGACY_SIGNATURE_SECTION: &'static str = "pumpkin.signature";

/// One payload reported by the WebAssembly parser, reduced to what section
/// handling reads from it.
pub enum ScannedPayload {
    /// The module or component header, ending at byte `end`.
    Header { end: u64 },
    /// A custom section: its name, its data, and the byte where the section ends.
    Custom { name: String, data: Vec<u8>, end: u64 },
    /// Any other payload; `section_end` is where the section ends when the payload is one.
    Other { section_end: Option<u64> },
    /// The parser stopped here on bytes it could not parse.
    Malformed,
}

/// Mathematical form of a [`ScannedPayload`].
pub enum PayloadView {
    Header { end: u64 },
    Custom { name: Seq<char>, data: Seq<u8>, end: u64 },
    Other { section_end: Option<u64> },
    Malformed,
}

impl View for ScannedPayload {
    type V = PayloadView;

    open spec fn view(&self) -> PayloadView {
        match self {
            ScannedPayload::Header { end } => PayloadView::Header { end: *end },
            ScannedPayload::Custom { name, data, end } => PayloadView::Custom {
                name: name@,
                data: data@,
                end: *end,
            },
            ScannedPayload::Other { section_end } => PayloadView::Other {
                section_end: *section_end,
            },
            ScannedPayload::Malformed => PayloadView::Malformed,
        }
    }
}

/// The payloads, in order, that `wasmparser::Parser::parse_all` yields for `bytes`.
pub uninterp spec fn wasm_payloads(bytes: Seq<u8>) -> Seq<PayloadView>;

/// Runs `wasmparser::Parser::new(0).parse_all` over `bytes` and records each
/// payload it yields, one record per payload. The contract names the list
/// (`wasm_payloads`): the parser's behaviour is not written out here.
#[verifier::external_body]
pub(crate) fn scan_wasm_payloads(bytes: &[u8]) -> (res: Vec<ScannedPayload>)
    ensures
        res@.map_values(|p: ScannedPayload| p@) == wasm_payloads(bytes@),
{
    let mut out = Vec::new();
    for payload in Parser::new(0).parse_all(bytes) {
        out.push(match payload {
            Ok(Payload::Version { range, .. }) => ScannedPayload::Header { end: range.end },
            Ok(Payload::CustomSection(cs)) => ScannedPayload::Custom {
                name: cs.name().to_string(),
                data: cs.data().to_vec(),
                end: cs.range().end,
            },
            Ok(other) => ScannedPayload::Other { section_end: other.as_section().map(|(_, r)| r.end) },
            Err(_) => ScannedPayload::Malformed,
        });
    }
    out
}

/// The section names that signing adds and stripping removes.
pub open spec fn is_pumpkin_section_name(name: Seq<char>) -> bool {
    name == PUMPKIN_METADATA_SECTION@ || name == WASM_SIGNATURE_SECTION@ || name
        == LEGACY_SIGNATURE_SECTION@
}

/// The end of the last header or section that is not a pumpkin custom
/// section, looking no further than the first unparsable payload; `end` is
/// the answer when no such payload exists.
pub open spec fn kept_end(payloads: Seq<PayloadView>, end: u64) -> u64
    decreases payloads.len(),
{
    if payloads.len() == 0 {
        end
    } else {
        let rest = payloads.drop_first();
        match payloads[0] {
            PayloadView::Header { end: e } => kept_end(rest, e),
            PayloadView::Custom { name, end: e, .. } => kept_end(
                rest,
                if is_pumpkin_section_name(name) {
                    end
                } else {
                    e
                },
            ),
            PayloadView::Other { section_end } => kept_end(
                rest,
                match section_end {
                    Some(e) => e,
                    None => end,
                },
            ),
            PayloadView::Malformed => end,
        }
    }
}

/// Where the scan for raw sections appended after the parsed part of `bytes`
/// starts: the end of its last header or section that is not a pumpkin section.
pub open spec fn strip_point(bytes: Seq<u8>) -> u64 {
    kept_end(wasm_payloads(bytes), bytes.len() as u64)
}

fn is_pumpkin_section(name: &String) -> (res: bool)
    ensures
        res == is_pumpkin_section_name(name@),
{
    str_eq(name.as_str(), PUMPKIN_METADATA_SECTION) || str_eq(name.as_str(), WASM_SIGNATURE_SECTION)
        || str_eq(name.as_str(), LEGACY_SIGNATURE_SECTION)
}

/// Where a payload ends: the end of the header or of the section it reports.
pub open spec fn payload_end(p: PayloadView) -> Option<u64> {
    match p {
        PayloadView::Header { end } => Some(end),
        PayloadView::Custom { end, .. } => Some(end),
        PayloadView::Other { section_end } => section_end,
        PayloadView::Malformed => None,
    }
}

/// A custom section under one of the pumpkin names.
pub open spec fn is_pumpkin_payload(p: PayloadView) -> bool {
    p matches PayloadView::Custom { name, .. } && is_pumpkin_section_name(name)
}

/// What stripping keeps of `bytes` from `cursor` on, given the payloads the
/// parser still reports. The header and each top-level section run from the
/// end of the one before (`cursor`) to their own end; payloads that end no
/// further than `cursor` lie inside a section already handled. The pumpkin
/// sections are dropped and every other part is kept, in order. At the end
/// of the payloads, or at the first bytes the parser cannot read, the rest is
/// dropped, unless nothing was read at all (`seen` is false), in which case
/// the input is kept whole. `None` when a part ends past the end of `bytes`.
pub open spec fn stripped_from(
    payloads: Seq<PayloadView>,
    bytes: Seq<u8>,
    cursor: int,
    seen: bool,
) -> Option<Seq<u8>>
    decreases payloads.len(),
{
    if payloads.len() == 0 || payloads[0] is Malformed {
        if seen {
            Some(Seq::empty())
        } else {
            Some(bytes.skip(cursor))
        }
    } else {
        let rest = payloads.drop_first();
        match payload_end(payloads[0]) {
            None => stripped_from(rest, bytes, cursor, seen),
            Some(e) => if e <= cursor {
                stripped_from(rest, bytes, cursor, seen)
            } else if e > bytes.len() {
                None
            } else {
                match stripped_from(rest, bytes, e as int, true) {
                    None => None,
                    Some(tail) => Some(
                        (if is_pumpkin_payload(payloads[0]) {
                            Seq::empty()
                        } else {
                            bytes.subrange(cursor, e as int)
                        }) + tail,
                    ),
                }
            },
        }
    }
}

/// The binary without its pumpkin sections, wherever they stand.
pub open spec fn stripped(bytes: Seq<u8>) -> Option<Seq<u8>> {
    stripped_from(wasm_payloads(bytes), bytes, 0, false)
}

/// Strips every `pumpkin.metadata`, `wasm_signature` and `pumpkin.signature`
/// custom section from a WebAssembly binary, wherever it stands among the
/// top-level sections, keeping the header and every other section in order,
/// and dropping whatever follows the first bytes the parser cannot read. A
/// binary that does not even start with a header is returned whole. It is an
/// error for a section to end past the end of the input, which happens when
/// the parser accepts the start of a code section that the input then cuts
/// short.
pub fn strip_pumpkin_sections(wasm_bytes: &[u8]) -> (res: Result<Vec<u8>, String>)
    ensures
        stripped(wasm_bytes@) matches Some(kept) ==> (res matches Ok(v) && v@ == kept),
        stripped(wasm_bytes@) is None ==> (res matches Err(e) && e@
            == "a section ends past the end of the binary"@),
{
    let payloads = scan_wasm_payloads(wasm_bytes);
    let ghost views = payloads@.map_values(|p: ScannedPayload| p@);
    let ghost bytes = wasm_bytes@;
    let mut out: Vec<u8> = Vec::new();
    let mut cursor: u64 = 0;
    let mut seen = false;
    let mut i: usize = 0;
    assert(views.skip(0) =~= views);
    while i < payloads.len()
        invariant
            i <= payloads@.len(),
            bytes == wasm_bytes@,
            views == payloads@.map_values(|p: ScannedPayload| p@),
            views == wasm_payloads(bytes),
            cursor <= bytes.len(),
            !seen ==> cursor == 0 && out@.len() == 0,
            stripped(bytes) == match stripped_from(views.skip(i as int), bytes, cursor as int, seen) {
                Some(tail) => Some(out@ + tail),
                None => None::<Seq<u8>>,
            },
        ensures
            cursor <= bytes.len(),
            !seen ==> cursor == 0 && out@.len() == 0,
            stripped(bytes) == match stripped_from(Seq::empty(), bytes, cursor as int, seen) {
                Some(tail) => Some(out@ + tail),
                None => None::<Seq<u8>>,
            },
        decreases payloads.len() - i,
    {
        let ghost tail = views.skip(i as int);
        proof {
            assert(tail[0] == payloads@[i as int]@);
            assert(tail.drop_first() =~= views.skip(i + 1));
        }
        let (end, pumpkin) = match &payloads[i] {
            ScannedPayload::Header { end } => (Some(*end), false),
            ScannedPayload::Custom { name, end, .. } => (Some(*end), is_pumpkin_section(name)),
            ScannedPayload::Other { section_end } => (*section_end, false),
            ScannedPayload::Malformed => {
                proof {
                    assert(stripped_from(tail, bytes, cursor as int, seen) == stripped_from(
                        Seq::empty(),
                        bytes,
                        cursor as int,
                        seen,
                    ));
                }
                break ;
            },
        };
        proof {
            assert(payload_end(tail[0]) == end);
            assert(is_pumpkin_payload(tail[0]) == pumpkin);
        }
        if let Some(e) = end {
            if e > cursor {
                if e > wasm_bytes.len() as u64 {
                    return Err(String::from_str("a section ends past the end of the binary"));
                }
                let ghost prev = out@;
                if !pumpkin {
                    let part = slice_subrange(wasm_bytes, cursor as usize, e as usize);
                    let mut piece = slice_to_vec(part);
                    proof {
                        assert(piece@ == bytes.subrange(cursor as int, e as int));
                    }
                    out.append(&mut piece);
                }
                proof {
                    match stripped_from(views.skip(i + 1), bytes, e as int, true) {
                        Some(t) => {
                            if pumpkin {
                                assert(prev + (Seq::<u8>::empty() + t) =~= out@ + t);
                            } else {
                                assert(prev + (bytes.subrange(cursor as int, e as int) + t)
                                    =~= out@ + t);
                            }
                        },
                        None => {},
                    }
                }
                cursor = e;
                seen = true;
            }
        }
        i = i + 1;
    }
    if seen {
        Ok(out)
    } else {
        Ok(slice_to_vec(wasm_bytes))
    }
}

/// Where the scan for raw trailing sections starts: the end of the last
/// header or section that is not a pumpkin section, as [`kept_end`] reads the
/// payloads.
pub(crate) fn trailing_start(wasm_bytes: &[u8], payloads: &Vec<ScannedPayload>) -> (res: u64)
    requires
        payloads@.map_values(|p: ScannedPayload| p@) == wasm_payloads(wasm_bytes@),
    ensures
        res == strip_point(wasm_bytes@),
{
    let ghost views = payloads@.map_values(|p: ScannedPayload| p@);
    let mut last_valid_end: u64 = wasm_bytes.len() as u64;
    let mut i: usize = 0;
    assert(views.skip(0) =~= views);
    while i < payloads.len()
        invariant
            i <= payloads@.len(),
            views == payloads@.map_values(|p: ScannedPayload| p@),
            views == wasm_payloads(wasm_bytes@),
            kept_end(views, wasm_bytes@.len() as u64) == kept_end(
                views.skip(i as int),
                last_valid_end,
            ),
        ensures
            kept_end(views, wasm_bytes@.len() as u64) == last_valid_end,
        decreases payloads.len() - i,
    {
        let ghost tail = views.skip(i as int);
        proof {
            assert(tail[0] == payloads@[i as int]@);
            assert(tail.drop_first() =~= views.skip(i + 1));
        }
        match &payloads[i] {
            ScannedPayload::Header { end } => {
                last_valid_end = *end;
            },
            ScannedPayload::Custom { name, end, .. } => {
                if !is_pumpkin_section(name) {
                    last_valid_end = *end;
                }
            },
            ScannedPayload::Other { section_end } => {
                if let Some(end) = section_end {
                    last_valid_end = *end;
                }
            },
            ScannedPayload::Malformed => {
                assert(kept_end(tail, last_valid_end) == last_valid_end);
                break ;
            },
        }
        i = i + 1;
        proof {
            if i == payloads@.len() {
                assert(views.skip(i as int).len() == 0);
            }
        }
    }
    last_valid_end
}

/// Records a custom section in the sections found so far: a metadata section
/// replaces the metadata, a signature section under either name replaces the
/// signature, and any other section changes nothing.
pub open spec fn note_named_section(
    is_metadata: bool,
    is_signature: bool,
    data: Seq<u8>,
    found: (Option<Seq<u8>>, Option<Seq<u8>>),
) -> (Option<Seq<u8>>, Option<Seq<u8>>) {
    if is_metadata {
        (Some(data), found.1)
    } else if is_signature {
        (found.0, Some(data))
    } else {
        found
    }
}

/// The metadata and signature sections that the parser reports, the last of
/// each kind winning.
pub open spec fn parsed_pumpkin_sections(
    payloads: Seq<PayloadView>,
    found: (Option<Seq<u8>>, Option<Seq<u8>>),
) -> (Option<Seq<u8>>, Option<Seq<u8>>)
    decreases payloads.len(),
{
    if payloads.len() == 0 {
        found
    } else {
        let next = match payloads[0] {
            PayloadView::Custom { name, data, .. } => note_named_section(
                name == PUMPKIN_METADATA_SECTION@,
                name == WASM_SIGNATURE_SECTION@ || name == LEGACY_SIGNATURE_SECTION@,
                data,
                found,
            ),
            _ => found,
        };
        parsed_pumpkin_sections(payloads.drop_first(), next)
    }
}

/// One raw section body in the trailing bytes: a LEB128 name length, the name,
/// and the payload, recorded when the name is one of the pumpkin names.
pub open spec fn note_trailing_section(
    section: Seq<u8>,
    found: (Option<Seq<u8>>, Option<Seq<u8>>),
) -> (Option<Seq<u8>>, Option<Seq<u8>>) {
    match decode_leb128(section) {
        Some((name_len, k)) => if k + name_len <= section.len() {
            let name = section.subrange(k as int, k + name_len);
            let payload = section.skip(k + name_len);
            note_named_section(
                name == encode_utf8(PUMPKIN_METADATA_SECTION@),
                name == encode_utf8(WASM_SIGNATURE_SECTION@) || name == encode_utf8(
                    LEGACY_SIGNATURE_SECTION@,
                ),
                payload,
                found,
            )
        } else {
            found
        },
        None => found,
    }
}

/// Reads the bytes that follow the parsable part of a binary as a run of
/// custom sections, each an optional zero section id, a LEB128 size and a
/// body of that size. Reading stops at the end of the bytes, at a size that
/// cannot be read, or at a section that runs past the end.
pub open spec fn scan_trailing_sections(
    rest: Seq<u8>,
    found: (Option<Seq<u8>>, Option<Seq<u8>>),
) -> (Option<Seq<u8>>, Option<Seq<u8>>)
    decreases rest.len(),
{
    if rest.len() == 0 {
        found
    } else {
        let body = if rest[0] == 0 {
            rest.drop_first()
        } else {
            rest
        };
        match decode_leb128(body) {
            Some((len, k)) => {
                let after = body.skip(k as int);
                if len <= after.len() && k >= 1 {
                    scan_trailing_sections(
                        after.skip(len as int),
                        note_trailing_section(after.take(len as int), found),
                    )
                } else {
                    found
                }
            },
            None => found,
        }
    }
}

fn bytes_equal(a: &[u8], b: &[u8]) -> (res: bool)
    ensures
        res == (a@ == b@),
{
    if a.len() != b.len() {
        return false;
    }
    let mut i: usize = 0;
    while i < a.len()
        invariant
            a@.len() == b@.len(),
            i <= a@.len(),
            forall|j: int| 0 <= j < i ==> a@[j] == b@[j],
        decreases a.len() - i,
    {
        if a[i] != b[i] {
            return false;
        }
        i = i + 1;
    }
    assert(a@ =~= b@);
    true
}

/// Collects the metadata and signature sections among the parser's payloads.
pub(crate) fn collect_parsed_sections(payloads: &Vec<ScannedPayload>) -> (res: (
    Option<Vec<u8>>,
    Option<Vec<u8>>,
))
    ensures
        (view_opt(res.0), view_opt(res.1)) == parsed_pumpkin_sections(
            payloads@.map_values(|p: ScannedPayload| p@),
            (None, None),
        ),
{
    let ghost views = payloads@.map_values(|p: ScannedPayload| p@);
    let mut metadata: Option<Vec<u8>> = None;
    let mut signature: Option<Vec<u8>> = None;
    let mut i: usize = 0;
    assert(views.skip(0) =~= views);
    while i < payloads.len()
        invariant
            i <= payloads@.len(),
            views == payloads@.map_values(|p: ScannedPayload| p@),
            parsed_pumpkin_sections(views, (None, None)) == parsed_pumpkin_sections(
                views.skip(i as int),
                (view_opt(metadata), view_opt(signature)),
            ),
        decreases payloads.len() - i,
    {
        let ghost tail = views.skip(i as int);
        proof {
            assert(tail[0] == payloads@[i as int]@);
            assert(tail.drop_first() =~= views.skip(i + 1));
        }
        if let ScannedPayload::Custom { name, data, .. } = &payloads[i] {
            if str_eq(name.as_str(), PUMPKIN_METADATA_SECTION) {
                metadata = Some(slice_to_vec(data.as_slice()));
            } else if str_eq(name.as_str(), WASM_SIGNATURE_SECTION) || str_eq(
                name.as_str(),
                LEGACY_SIGNATURE_SECTION,
            ) {
                signature = Some(slice_to_vec(data.as_slice()));
            }
        }
        i = i + 1;
    }
    assert(views.skip(i as int).len() == 0);
    (metadata, signature)
}

/// The view of an optional byte vector.
pub open spec fn view_opt(v: Option<Vec<u8>>) -> Option<Seq<u8>> {
    match v {
        Some(b) => Some(b@),
        None => None,
    }
}

/// Records one trailing section body.
fn note_trailing_section_exec(
    section: &[u8],
    metadata: &mut Option<Vec<u8>>,
    signature: &mut Option<Vec<u8>>,
)
    ensures
        (view_opt(*final(metadata)), view_opt(*final(signature))) == note_trailing_section(
            section@,
            (view_opt(*old(metadata)), view_opt(*old(signature))),
        ),
{
    if let Some((name_len, name_len_bytes)) = read_leb128(section) {
        let room: usize = section.len() - name_len_bytes;
        if name_len <= room as u64 {
            let name_end = name_len_bytes + name_len as usize;
            let name = slice_subrange(section, name_len_bytes, name_end);
            let payload = slice_subrange(section, name_end, section.len());
            proof {
                assert(payload@ =~= section@.skip(name_end as int));
            }
            if bytes_equal(name, PUMPKIN_METADATA_SECTION.as_bytes()) {
                *metadata = Some(slice_to_vec(payload));
            } else if bytes_equal(name, WASM_SIGNATURE_SECTION.as_bytes()) || bytes_equal(
                name,
                LEGACY_SIGNATURE_SECTION.as_bytes(),
            ) {
                *signature = Some(slice_to_vec(payload));
            }
        }
    }
}

/// Reads the trailing bytes of a binary as raw custom sections, as
/// [`scan_trailing_sections`] describes, starting from the sections already found.
pub fn scan_trailing_sections_exec(
    trailing: &[u8],
    metadata: Option<Vec<u8>>,
    signature: Option<Vec<u8>>,
) -> (res: (Option<Vec<u8>>, Option<Vec<u8>>))
    ensures
        (view_opt(res.0), view_opt(res.1)) == scan_trailing_sections(
            trailing@,
            (view_opt(metadata), view_opt(signature)),
        ),
{
    let ghost goal = scan_trailing_sections(trailing@, (view_opt(metadata), view_opt(signature)));
    let mut metadata = metadata;
    let mut signature = signature;
    let mut cursor: usize = 0;
    assert(trailing@.skip(0) =~= trailing@);
    while cursor < trailing.len()
        invariant_except_break
            cursor <= trailing@.len(),
            goal == scan_trailing_sections(
                trailing@.skip(cursor as int),
                (view_opt(metadata), view_opt(signature)),
            ),
        ensures
            goal == (view_opt(metadata), view_opt(signature)),
        decreases trailing.len() - cursor,
    {
        let ghost rest = trailing@.skip(cursor as int);
        let ghost found = (view_opt(metadata), view_opt(signature));
        let ghost body = if rest[0] == 0 {
            rest.drop_first()
        } else {
            rest
        };
        if trailing[cursor] == 0 {
            cursor = cursor + 1;
        }
        assert(body =~= trailing@.skip(cursor as int));
        let header = read_leb128(slice_subrange(trailing, cursor, trailing.len()));
        if let Some((section_len, len_bytes)) = header {
            let ghost k = len_bytes as nat;
            let ghost after = body.skip(k as int);
            proof {
                assert(k >= 1 && k <= body.len());
            }
            cursor = cursor + len_bytes;
            let room: usize = trailing.len() - cursor;
            if section_len <= room as u64 {
                let section_end = cursor + section_len as usize;
                let section = slice_subrange(trailing, cursor, section_end);
                proof {
                    assert(after =~= trailing@.skip(cursor as int));
                    assert(section@ =~= after.take(section_len as int));
                    assert(after.skip(section_len as int) =~= trailing@.skip(section_end as int));
                    assert(scan_trailing_sections(rest, found) == scan_trailing_sections(
                        after.skip(section_len as int),
                        note_trailing_section(after.take(section_len as int), found),
                    ));
                }
                note_trailing_section_exec(section, &mut metadata, &mut signature);
                cursor = section_end;
            } else {
                proof {
                    assert(after.len() == room);
                    assert(scan_trailing_sections(rest, found) == found);
                }
                break ;
            }
        } else {
            proof {
                assert(scan_trailing_sections(rest, found) == found);
            }
            break ;
        }
    }
    (metadata, signature)
}

/// The bytes that `wasm_encoder` writes for a custom section: the LEB128 size
/// of the body, then the body, made of the LEB128 length of the name, the name
/// and the data. No section id is written.
pub open spec fn custom_section_bytes(name: Seq<u8>, data: Seq<u8>) -> Seq<u8> {
    let name_len = leb128_encode(name.len());
    leb128_encode(name_len.len() + name.len() + data.len()) + (name_len + name + data)
}

/// Appends a custom section named `name` with contents `data` to `out`, through
/// `<wasm_encoder::CustomSection as Encode>::encode`. The contract states the
/// bytes written, as that function's source writes them; `requires` keeps the
/// sizes within the `u32` range, past which the encoder panics.
#[verifier::external_body]
pub(crate) fn encode_custom_section(out: &mut Vec<u8>, name: &str, data: &[u8])
    requires
        leb128_encode(name.spec_bytes().len()).len() + name.spec_bytes().len() + data@.len()
            <= u32::MAX,
    ensures
        final(out)@ == old(out)@ + custom_section_bytes(name.spec_bytes(), data@),
{
    CustomSection { name: name.into(), data: data.into() }.encode(out);
}

/// Facts about the three section names: their UTF-8 encodings have 16, 14
/// and 17 bytes, so no two of them are equal.
pub proof fn lemma_section_name_bytes()
    ensures
        encode_utf8(PUMPKIN_METADATA_SECTION@).len() == 16,
        encode_utf8(WASM_SIGNATURE_SECTION@).len() == 14,
        encode_utf8(LEGACY_SIGNATURE_SECTION@).len() == 17,
{
    reveal_strlit("pumpkin.metadata");
    reveal_strlit("wasm_signature");
    reveal_strlit("pumpkin.signature");
    assert(is_ascii_chars(PUMPKIN_METADATA_SECTION@));
    assert(is_ascii_chars(WASM_SIGNATURE_SECTION@));
    assert(is_ascii_chars(LEGACY_SIGNATURE_SECTION@));
    is_ascii_chars_encode_utf8(PUMPKIN_METADATA_SECTION@);
    is_ascii_chars_encode_utf8(WASM_SIGNATURE_SECTION@);
    is_ascii_chars_encode_utf8(LEGACY_SIGNATURE_SECTION@);
}

/// The body of an encoded custom section records its data under its name.
proof fn lemma_note_encoded_body(
    name: Seq<u8>,
    data: Seq<u8>,
    found: (Option<Seq<u8>>, Option<Seq<u8>>),
)
    requires
        name.len() <= u32::MAX,
    ensures
        note_trailing_section(leb128_encode(name.len()) + name + data, found)
            == note_named_section(
            name == encode_utf8(PUMPKIN_METADATA_SECTION@),
            name == encode_utf8(WASM_SIGNATURE_SECTION@) || name == encode_utf8(
                LEGACY_SIGNATURE_SECTION@,
            ),
            data,
            found,
        ),
{
    let name_len = leb128_encode(name.len());
    let body = name_len + name + data;
    assert(body =~= name_len + (name + data));
    crate::leb128::lemma_decode_encoded(name.len() as u64, name + data);
    let kn = name_len.len();
    assert(body.subrange(kn as int, (kn + name.len()) as int) =~= name);
    assert(body.skip((kn + name.len()) as int) =~= data);
}

/// Reading one appended custom section back: the trailing-section reader
/// consumes exactly the bytes the encoder wrote and records its data under
/// the section's name.
#[verifier::rlimit(40)]
pub proof fn lemma_read_back_one_section(
    name: Seq<u8>,
    data: Seq<u8>,
    rest: Seq<u8>,
    found: (Option<Seq<u8>>, Option<Seq<u8>>),
)
    requires
        1 <= name.len(),
        leb128_encode(name.len()).len() + name.len() + data.len() <= u32::MAX,
    ensures
        scan_trailing_sections(custom_section_bytes(name, data) + rest, found)
            == scan_trailing_sections(
            rest,
            note_named_section(
                name == encode_utf8(PUMPKIN_METADATA_SECTION@),
                name == encode_utf8(WASM_SIGNATURE_SECTION@) || name == encode_utf8(
                    LEGACY_SIGNATURE_SECTION@,
                ),
                data,
                found,
            ),
        ),
{
    let name_len = leb128_encode(name.len());
    let body = name_len + name + data;
    let size = name_len.len() + name.len() + data.len();
    let size_bytes = leb128_encode(size);
    let all = size_bytes + (body + rest);
    assert(custom_section_bytes(name, data) + rest =~= all);
    assert(size_bytes[0] != 0) by {
        if size < 128 {
            assert(size_bytes[0] == size as u8);
        } else {
            assert(size_bytes[0] == (size % 128 + 128) as u8);
        }
    }
    crate::leb128::lemma_decode_encoded(size as u64, body + rest);
    let k = size_bytes.len();
    assert(decode_leb128(all) == Some((size as u64, k)));
    assert(all[0] == size_bytes[0]);
    let after = all.skip(k as int);
    assert(after =~= body + rest);
    assert(after.take(size as int) =~= body);
    assert(after.skip(size as int) =~= rest);
    assert(scan_trailing_sections(all, found) == scan_trailing_sections(
        after.skip(size as int),
        note_trailing_section(after.take(size as int), found),
    ));
    lemma_note_encoded_body(name, data, found);
}

/// What signing appends reads back: after a `pumpkin.metadata` section and a
/// `wasm_signature` section written by the encoder, the trailing-section
/// reader finds exactly their contents, whatever was found before.
pub proof fn lemma_signed_sections_read_back(
    metadata: Seq<u8>,
    signature: Seq<u8>,
    found: (Option<Seq<u8>>, Option<Seq<u8>>),
)
    requires
        metadata.len() + 32 <= u32::MAX,
        signature.len() + 32 <= u32::MAX,
    ensures
        scan_trailing_sections(
            custom_section_bytes(encode_utf8(PUMPKIN_METADATA_SECTION@), metadata)
                + custom_section_bytes(encode_utf8(WASM_SIGNATURE_SECTION@), signature),
            found,
        ) == (Some(metadata), Some(signature)),
{
    lemma_section_name_bytes();
    let meta_name = encode_utf8(PUMPKIN_METADATA_SECTION@);
    let sig_name = encode_utf8(WASM_SIGNATURE_SECTION@);
    let second = custom_section_bytes(sig_name, signature);
    crate::leb128::lemma_decode_encoded(16, seq![]);
    crate::leb128::lemma_decode_encoded(14, seq![]);
    assert(leb128_encode(16).len() == 1);
    assert(leb128_encode(14).len() == 1);
    lemma_read_back_one_section(meta_name, metadata, second, found);
    let after_first = (Some(metadata), found.1);
    assert(meta_name == encode_utf8(PUMPKIN_METADATA_SECTION@));
    assert(second =~= second + Seq::<u8>::empty());
    lemma_read_back_one_section(sig_name, signature, Seq::<u8>::empty(), after_first);
    assert(sig_name != encode_utf8(PUMPKIN_METADATA_SECTION@));
}

} // verus!
