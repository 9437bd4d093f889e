//! Vaporizer2 patch files (`.vvp`) and the CLAP state made from them.
//!
//! A `.vvp` file is the plugin's UTF-8 patch XML itself, so the CLAP state is that XML
//! wrapped in JUCE's binary-XML header. The header of a file (name, category, tag,
//! author and poly mode) is read from its first bytes only.
use vstd::prelude::*;

use crate::text::{
    chars_are, find_chars_from, lossy_chars, replace_bytes, replace_chars, string_chars,
    sub_chars,
};

verus! {

broadcast use vstd::string::group_string_axioms;

/// The CLAP plugin ID of Vaporizer2, the plugin whose patches are `.vvp` files.
pub const VAPORIZER2_PLUGIN_ID: &'static str = "com.vastdynamics.VAST2";

/// The magic that JUCE's `copyXmlToBinary` puts in front of the XML.
pub const JUCE_BINARY_XML_MAGIC: u32 = 0x2132_4356;

/// Magic and XML length, four bytes each.
pub const JUCE_BINARY_XML_HEADER_LEN: usize = 8;

/// How many leading bytes of a file are read for its header.
pub const HEADER_PREFIX_LEN: u64 = 4096;

// ---------------------------------------------------------------------------
// Patch paths.
// ---------------------------------------------------------------------------

pub open spec fn is_path_separator(c: char) -> bool {
    c == '/' || c == '\\'
}

/// A path component ends at `end` with a name of more than four characters whose last
/// four read `.vvp`, ASCII letters in either case.
pub open spec fn vvp_name_ends_at(patch: Seq<char>, end: int) -> bool {
    &&& 5 <= end <= patch.len()
    &&& (end == patch.len() || is_path_separator(patch[end]))
    &&& !is_path_separator(patch[end - 5])
    &&& crate::text::ascii_lower(patch.subrange(end - 4, end)) == ".vvp"@
}

/// Whether some component of the path (split at `/` and `\`) is a `.vvp` file name.
/// Only the shape of the string decides, as for cartridge paths.
pub open spec fn spec_is_vvp_patch_path(patch: Seq<char>) -> bool {
    exists|end: int| #[trigger] vvp_name_ends_at(patch, end)
}

/// Whether `patch` names a Vaporizer2 patch: some component of it, not only the last,
/// ends in `.vvp` (any case) after at least one more character. A component whose
/// last four bytes split a character is not such a name.
pub fn is_vvp_patch_path(patch: &str) -> (vvp: bool)
    ensures
        vvp == spec_is_vvp_patch_path(patch@),
{
    let chars = string_chars(patch);
    let n = chars.len();
    let extension = string_chars(".vvp");
    proof {
        reveal_strlit(".vvp");
    }
    let mut end: usize = 5;
    while end <= n
        invariant
            n == chars@.len(),
            chars@ == patch@,
            extension@ == ".vvp"@,
            5 <= end,
            forall|e: int| 5 <= e < end ==> !vvp_name_ends_at(patch@, e),
        decreases n + 1 - end,
    {
        let closes = end == n || chars[end] == '/' || chars[end] == '\\';
        if closes && chars[end - 5] != '/' && chars[end - 5] != '\\' {
            let tail = sub_chars(&chars, end - 4, end);
            let lower = crate::text::lowercase_chars(&tail);
            if crate::text::chars_equal(&lower, &extension) {
                assert(vvp_name_ends_at(patch@, end as int));
                return true;
            }
        }
        if end == n {
            assert forall|e: int| !vvp_name_ends_at(patch@, e) by {
                if 5 <= e <= end {
                }
            }
            return false;
        }
        end = end + 1;
    }
    proof {
        assert forall|e: int| !vvp_name_ends_at(patch@, e) by {
            if 5 <= e < end {
            }
        }
    }
    false
}

// ---------------------------------------------------------------------------
// The CLAP state.
// ---------------------------------------------------------------------------

/// The version tag that the plugin would read with the wrong representation.
pub open spec fn legacy_patch_version() -> Seq<u8> {
    seq![
        0x56u8, 0x41, 0x53, 0x54, 0x56, 0x61, 0x70, 0x6f, 0x72, 0x69, 0x7a, 0x65, 0x72, 0x50,
        0x61, 0x72, 0x61, 0x6d, 0x73, 0x56, 0x32, 0x2e, 0x30, 0x30, 0x30, 0x30, 0x30,
    ]
}

/// The tag it is rewritten to: same length, read as stored.
pub open spec fn retagged_patch_version() -> Seq<u8> {
    legacy_patch_version().update(22, 0x31u8)
}

fn legacy_version_bytes() -> (bytes: Vec<u8>)
    ensures
        bytes@ == legacy_patch_version(),
{
    let bytes: Vec<u8> = vec![
        0x56u8, 0x41, 0x53, 0x54, 0x56, 0x61, 0x70, 0x6f, 0x72, 0x69, 0x7a, 0x65, 0x72, 0x50,
        0x61, 0x72, 0x61, 0x6d, 0x73, 0x56, 0x32, 0x2e, 0x30, 0x30, 0x30, 0x30, 0x30,
    ];
    assert(bytes@ =~= legacy_patch_version());
    bytes
}

fn retagged_version_bytes() -> (bytes: Vec<u8>)
    ensures
        bytes@ == retagged_patch_version(),
{
    let mut bytes = legacy_version_bytes();
    bytes.set(22, 0x31u8);
    bytes
}

/// The XML with every legacy version tag rewritten.
pub open spec fn retagged_xml(xml: Seq<u8>) -> Seq<u8> {
    crate::text::replace_all(xml, legacy_patch_version(), retagged_patch_version())
}

/// The four little-endian bytes of `v`.
pub open spec fn u32_le(v: u32) -> Seq<u8> {
    seq![
        (v % 0x100) as u8,
        ((v / 0x100) % 0x100) as u8,
        ((v / 0x1_0000) % 0x100) as u8,
        (v / 0x100_0000) as u8,
    ]
}

fn u32_le_bytes(v: u32) -> (bytes: Vec<u8>)
    ensures
        bytes@ == u32_le(v),
{
    let bytes: Vec<u8> = vec![
        (v % 0x100) as u8,
        ((v / 0x100) % 0x100) as u8,
        ((v / 0x1_0000) % 0x100) as u8,
        (v / 0x100_0000) as u8,
    ];
    assert(bytes@ =~= u32_le(v));
    bytes
}

/// JUCE's binary XML around the retagged XML: magic, length of the XML (its final NUL
/// not counted), the XML, and a NUL.
pub open spec fn spec_vvp_state_blob(xml: Seq<u8>) -> Seq<u8> {
    let body = retagged_xml(xml);
    u32_le(JUCE_BINARY_XML_MAGIC) + u32_le(body.len() as u32) + body + seq![0u8]
}

/// Turns the XML of a `.vvp` file into a state the plugin loads through `clap.state`.
/// An XML that calls itself version 2.00000 is retagged 2.10000, so that the plugin
/// reads its parameters as the file stores them; 2.20000 and others stay as they are.
pub fn vvp_state_blob(xml: &[u8]) -> (blob: Vec<u8>)
    ensures
        blob@ == spec_vvp_state_blob(xml@),
        blob@.len() == xml@.len() + 9,
{
    let legacy = legacy_version_bytes();
    let retagged = retagged_version_bytes();
    let mut body = replace_bytes(xml, legacy.as_slice(), retagged.as_slice());
    proof {
        lemma_same_length_replace(xml@, legacy@, retagged@, 0);
    }
    let ghost body_view = body@;
    let mut blob = u32_le_bytes(JUCE_BINARY_XML_MAGIC);
    let mut length = u32_le_bytes(body.len() as u32);
    blob.append(&mut length);
    blob.append(&mut body);
    blob.push(0u8);
    assert(blob@ =~= spec_vvp_state_blob(xml@));
    blob
}

/// Replacing with text of the pattern's own length keeps the length.
pub proof fn lemma_same_length_replace<T>(text: Seq<T>, pattern: Seq<T>, replacement: Seq<T>, from: int)
    requires
        pattern.len() > 0,
        replacement.len() == pattern.len(),
        0 <= from <= text.len(),
    ensures
        crate::text::replace_from(text, pattern, replacement, from).len() == text.len() - from,
    decreases text.len() - from,
{
    crate::text::lemma_first_match_from(text, pattern, from);
    if let Some(at) = crate::text::first_match_from(text, pattern, from) {
        lemma_same_length_replace(text, pattern, replacement, at + pattern.len());
    }
}

// ---------------------------------------------------------------------------
// The header.
// ---------------------------------------------------------------------------

/// What a patch's first bytes tell about it.
#[derive(Clone, Debug, PartialEq, Eq)]
pub struct VvpHeader {
    pub name: String,
    /// `PatchCategory`: a two-letter code (`AR`, `BA`, `PD`, ...).
    pub category: String,
    pub tag: String,
    pub author: String,
    /// `m_uPolyMode` is other than `Mono`. Only such patches can play chords.
    pub poly: bool,
}

pub struct VvpHeaderView {
    pub name: Seq<char>,
    pub category: Seq<char>,
    pub tag: Seq<char>,
    pub author: Seq<char>,
    pub poly: bool,
}

impl View for VvpHeader {
    type V = VvpHeaderView;

    open spec fn view(&self) -> VvpHeaderView {
        VvpHeaderView {
            name: self.name@,
            category: self.category@,
            tag: self.tag@,
            author: self.author@,
            poly: self.poly,
        }
    }
}

/// Why a header cannot be read.
#[derive(Clone, Copy, Debug, PartialEq, Eq)]
pub enum VvpError {
    /// The bytes hold no `<VASTvaporizer2` element.
    NotVaporizer2,
    /// The bytes end before the `m_uPolyMode` parameter, so whether the patch plays
    /// chords is unknown.
    MissingPolyMode,
}

impl VvpError {
    /// The message, naming what was missing.
    pub fn message(&self) -> (text: String)
        ensures
            text@ == (match self {
                VvpError::NotVaporizer2 => "Vaporizer2 の音色ファイルではない（先頭に '<VASTvaporizer2' が無い）"@,
                VvpError::MissingPolyMode => "先頭 4096 バイトに 'm_uPolyMode' が無い（和音で鳴らせるか判定できない）"@,
            }),
    {
        match self {
            VvpError::NotVaporizer2 => crate::text::owned(
                "Vaporizer2 の音色ファイルではない（先頭に '<VASTvaporizer2' が無い）",
            ),
            VvpError::MissingPolyMode => crate::text::owned(
                "先頭 4096 バイトに 'm_uPolyMode' が無い（和音で鳴らせるか判定できない）",
            ),
        }
    }
}

/// An attribute value with the XML entities put back. `&amp;` goes last, so that
/// `&amp;lt;` becomes `&lt;`, not `<`.
pub open spec fn xml_entities_decoded(value: Seq<char>) -> Seq<char> {
    if crate::text::first_match(value, seq!['&']) is None {
        value
    } else {
        let v1 = crate::text::replace_all(value, "&lt;"@, "<"@);
        let v2 = crate::text::replace_all(v1, "&gt;"@, ">"@);
        let v3 = crate::text::replace_all(v2, "&quot;"@, "\""@);
        let v4 = crate::text::replace_all(v3, "&apos;"@, "'"@);
        crate::text::replace_all(v4, "&amp;"@, "&"@)
    }
}

/// How XML writes `c` in an attribute value: one of the five entities, or `c` itself.
pub open spec fn xml_escaped_char(c: char) -> Seq<char> {
    if c == '&' {
        "&amp;"@
    } else if c == '<' {
        "&lt;"@
    } else if c == '>' {
        "&gt;"@
    } else if c == '"' {
        "&quot;"@
    } else if c == '\'' {
        "&apos;"@
    } else {
        seq![c]
    }
}

/// `text` as XML writes it in an attribute value.
pub open spec fn xml_escaped(text: Seq<char>) -> Seq<char>
    decreases text.len(),
{
    if text.len() == 0 {
        Seq::empty()
    } else {
        xml_escaped_char(text[0]) + xml_escaped(text.drop_first())
    }
}

/// The character that the `k`-th replacement of [`xml_entities_decoded`] puts back.
spec fn decoded_in_step(k: int) -> char {
    if k == 0 {
        '<'
    } else if k == 1 {
        '>'
    } else if k == 2 {
        '"'
    } else if k == 3 {
        '\''
    } else {
        '&'
    }
}

/// `c` is one that the first `k` replacements put back.
spec fn put_back(k: int, c: char) -> bool {
    ||| (k > 0 && c == '<')
    ||| (k > 1 && c == '>')
    ||| (k > 2 && c == '"')
    ||| (k > 3 && c == '\'')
    ||| (k > 4 && c == '&')
}

/// How `c` stands in the escaped text after the first `k` replacements.
spec fn partly_decoded_char(k: int, c: char) -> Seq<char> {
    if put_back(k, c) {
        seq![c]
    } else {
        xml_escaped_char(c)
    }
}

/// The escaped `text` after the first `k` replacements.
spec fn partly_decoded(k: int, text: Seq<char>) -> Seq<char>
    decreases text.len(),
{
    if text.len() == 0 {
        Seq::empty()
    } else {
        partly_decoded_char(k, text[0]) + partly_decoded(k, text.drop_first())
    }
}

proof fn reveal_entities()
    ensures
        "&amp;"@ == seq!['&', 'a', 'm', 'p', ';'],
        "&lt;"@ == seq!['&', 'l', 't', ';'],
        "&gt;"@ == seq!['&', 'g', 't', ';'],
        "&quot;"@ == seq!['&', 'q', 'u', 'o', 't', ';'],
        "&apos;"@ == seq!['&', 'a', 'p', 'o', 's', ';'],
{
    reveal_strlit("&amp;");
    reveal_strlit("&lt;");
    reveal_strlit("&gt;");
    reveal_strlit("&quot;");
    reveal_strlit("&apos;");
}

/// Each replacement puts back its own entity and nothing else.
proof fn lemma_decode_step(k: int, text: Seq<char>)
    requires
        0 <= k < 5,
    ensures
        crate::text::replace_all(
            partly_decoded(k, text),
            xml_escaped_char(decoded_in_step(k)),
            seq![decoded_in_step(k)],
        ) == partly_decoded(k + 1, text),
    decreases text.len(),
{
    reveal_entities();
    let pattern = xml_escaped_char(decoded_in_step(k));
    let replacement = seq![decoded_in_step(k)];
    if text.len() == 0 {
        assert(crate::text::first_match_from(Seq::<char>::empty(), pattern, 0) is None);
        assert(Seq::<char>::empty().subrange(0, 0) =~= Seq::<char>::empty());
    } else {
        let c = text[0];
        let rest = partly_decoded(k, text.drop_first());
        lemma_decode_step(k, text.drop_first());
        let head = partly_decoded_char(k, c);
        if c == decoded_in_step(k) {
            crate::text::lemma_replace_leading(pattern, replacement, rest);
        } else {
            assert forall|j: int| 0 <= j < head.len() implies !crate::text::matches_at(
                head + rest,
                pattern,
                j,
            ) by {
                let t = head + rest;
                if crate::text::matches_at(t, pattern, j) {
                    let window = t.subrange(j, j + pattern.len());
                    assert(window[0] == pattern[0]);
                    assert(head[j] == '&');
                    assert(j == 0);
                    assert(window[1] == pattern[1]);
                    assert(window[2] == pattern[2]);
                    assert(head[1] == pattern[1]);
                    assert(head[2] == pattern[2]);
                }
            }
            crate::text::lemma_replace_kept(head, rest, pattern, replacement);
        }
    }
}

proof fn lemma_decode_start(text: Seq<char>)
    ensures
        partly_decoded(0, text) == xml_escaped(text),
    decreases text.len(),
{
    if text.len() > 0 {
        lemma_decode_start(text.drop_first());
    }
}

proof fn lemma_decode_end(text: Seq<char>)
    ensures
        partly_decoded(5, text) == text,
    decreases text.len(),
{
    if text.len() > 0 {
        lemma_decode_end(text.drop_first());
        assert(partly_decoded_char(5, text[0]) == seq![text[0]]);
        assert(seq![text[0]] + text.drop_first() =~= text);
    }
}

/// Escaped text without an `&` is the text itself.
proof fn lemma_escaped_without_amp(text: Seq<char>)
    requires
        forall|k: int| 0 <= k ==> !crate::text::matches_at(xml_escaped(text), seq!['&'], k),
    ensures
        xml_escaped(text) == text,
    decreases text.len(),
{
    reveal_entities();
    if text.len() > 0 {
        let e = xml_escaped(text);
        let head = xml_escaped_char(text[0]);
        let rest = xml_escaped(text.drop_first());
        if head.len() != 1 {
            assert(e.subrange(0, 1) =~= seq!['&']);
            assert(crate::text::matches_at(e, seq!['&'], 0));
        }
        assert forall|k: int| 0 <= k implies !crate::text::matches_at(rest, seq!['&'], k) by {
            if crate::text::matches_at(rest, seq!['&'], k) {
                assert(e.subrange(k + 1, k + 2) =~= rest.subrange(k, k + 1));
                assert(crate::text::matches_at(e, seq!['&'], k + 1));
            }
        }
        lemma_escaped_without_amp(text.drop_first());
        assert(seq![text[0]] + text.drop_first() =~= text);
    }
}

/// Decoding undoes XML escaping: every entity is put back exactly once, so an
/// escaped `&lt;` (`&amp;lt;`) comes back as `&lt;`, not as `<`.
pub proof fn law_decode_undoes_escape(text: Seq<char>)
    ensures
        xml_entities_decoded(xml_escaped(text)) == text,
{
    reveal_entities();
    reveal_strlit("<");
    reveal_strlit(">");
    reveal_strlit("\"");
    reveal_strlit("'");
    reveal_strlit("&");
    let e = xml_escaped(text);
    if crate::text::first_match(e, seq!['&']) is None {
        crate::text::lemma_first_match_from(e, seq!['&'], 0);
        lemma_escaped_without_amp(text);
    } else {
        lemma_decode_start(text);
        lemma_decode_step(0, text);
        lemma_decode_step(1, text);
        lemma_decode_step(2, text);
        lemma_decode_step(3, text);
        lemma_decode_step(4, text);
        lemma_decode_end(text);
        assert("<"@ =~= seq![decoded_in_step(0)]);
        assert(">"@ =~= seq![decoded_in_step(1)]);
        assert("\""@ =~= seq![decoded_in_step(2)]);
        assert("'"@ =~= seq![decoded_in_step(3)]);
        assert("&"@ =~= seq![decoded_in_step(4)]);
        let v1 = crate::text::replace_all(e, "&lt;"@, "<"@);
        assert(v1 == partly_decoded(1, text));
        let v2 = crate::text::replace_all(v1, "&gt;"@, ">"@);
        assert(v2 == partly_decoded(2, text));
        let v3 = crate::text::replace_all(v2, "&quot;"@, "\""@);
        assert(v3 == partly_decoded(3, text));
        let v4 = crate::text::replace_all(v3, "&apos;"@, "'"@);
        assert(v4 == partly_decoded(4, text));
    }
}

/// The value after the first `prefix` in `text`, up to the next `"`.
pub open spec fn spec_quoted_value(text: Seq<char>, prefix: Seq<char>) -> Option<Seq<char>> {
    match crate::text::first_match(text, prefix) {
        None => None,
        Some(at) => {
            let rest = text.subrange(at + prefix.len(), text.len() as int);
            match crate::text::first_match(rest, seq!['"']) {
                None => None,
                Some(end) => Some(xml_entities_decoded(rest.subrange(0, end))),
            }
        },
    }
}

/// The `text="..."` of the `<PARAM .../>` element that `id_pattern` (`id="..."`) opens,
/// looked for only up to that element's `/>`.
pub open spec fn spec_param_text(text: Seq<char>, id_pattern: Seq<char>) -> Option<Seq<char>> {
    match crate::text::first_match(text, id_pattern) {
        None => None,
        Some(at) => {
            let rest = text.subrange(at, text.len() as int);
            match crate::text::first_match(rest, "/>"@) {
                None => None,
                Some(end) => spec_quoted_value(rest.subrange(0, end), "text=\""@),
            }
        },
    }
}

pub open spec fn or_empty(value: Option<Seq<char>>) -> Seq<char> {
    match value {
        Some(v) => v,
        None => Seq::empty(),
    }
}

/// The header that the leading bytes `prefix` of a `.vvp` file describe.
pub open spec fn spec_parse_vvp_header(prefix: Seq<u8>) -> Result<VvpHeaderView, VvpError> {
    let text = crate::text::lossy_text(prefix);
    if crate::text::first_match(text, "<VASTvaporizer2"@) is None {
        Err(VvpError::NotVaporizer2)
    } else {
        match spec_param_text(text, "id=\"m_uPolyMode\""@) {
            None => Err(VvpError::MissingPolyMode),
            Some(mode) => Ok(
                VvpHeaderView {
                    name: or_empty(spec_quoted_value(text, "PatchName=\""@)),
                    category: or_empty(spec_quoted_value(text, "PatchCategory=\""@)),
                    tag: or_empty(spec_quoted_value(text, "PatchTag=\""@)),
                    author: or_empty(spec_quoted_value(text, "PatchAuthor=\""@)),
                    poly: mode != "Mono"@,
                },
            ),
        }
    }
}

fn chars_of(text: &str) -> (chars: Vec<char>)
    ensures
        chars@ == text@,
{
    string_chars(text)
}

fn replace_text(value: &Vec<char>, pattern: &str, replacement: &str) -> (out: Vec<char>)
    requires
        pattern@.len() > 0,
    ensures
        out@ == crate::text::replace_all(value@, pattern@, replacement@),
{
    let p = chars_of(pattern);
    let r = chars_of(replacement);
    replace_chars(value, &p, &r)
}

/// Puts the XML entities of an attribute value back.
pub fn decode_xml_entities(value: &Vec<char>) -> (decoded: Vec<char>)
    ensures
        decoded@ == xml_entities_decoded(value@),
{
    let amp: Vec<char> = vec!['&'];
    assert(amp@ =~= seq!['&']);
    if find_chars_from(value, &amp, 0).is_none() {
        return value.clone();
    }
    proof {
        reveal_strlit("&lt;");
        reveal_strlit("&gt;");
        reveal_strlit("&quot;");
        reveal_strlit("&apos;");
        reveal_strlit("&amp;");
    }
    let v1 = replace_text(value, "&lt;", "<");
    let v2 = replace_text(&v1, "&gt;", ">");
    let v3 = replace_text(&v2, "&quot;", "\"");
    let v4 = replace_text(&v3, "&apos;", "'");
    replace_text(&v4, "&amp;", "&")
}

fn quoted_value(text: &Vec<char>, prefix: &Vec<char>) -> (value: Option<Vec<char>>)
    ensures
        match value {
            Some(v) => spec_quoted_value(text@, prefix@) == Some(v@),
            None => spec_quoted_value(text@, prefix@) is None,
        },
{
    let n: usize = text.len();
    let at = match find_chars_from(text, prefix, 0) {
        Some(at) => at,
        None => return None,
    };
    proof {
        crate::text::lemma_first_match_from(text@, prefix@, 0);
        assert(crate::text::matches_at(text@, prefix@, at as int));
    }
    let rest = sub_chars(text, at + prefix.len(), n);
    let quote: Vec<char> = vec!['"'];
    assert(quote@ =~= seq!['"']);
    let end = match find_chars_from(&rest, &quote, 0) {
        Some(end) => end,
        None => return None,
    };
    proof {
        crate::text::lemma_first_match_from(rest@, quote@, 0);
    }
    let raw = sub_chars(&rest, 0, end);
    Some(decode_xml_entities(&raw))
}

fn param_text(text: &Vec<char>, id_pattern: &Vec<char>) -> (value: Option<Vec<char>>)
    ensures
        match value {
            Some(v) => spec_param_text(text@, id_pattern@) == Some(v@),
            None => spec_param_text(text@, id_pattern@) is None,
        },
{
    let at = match find_chars_from(text, id_pattern, 0) {
        Some(at) => at,
        None => return None,
    };
    proof {
        crate::text::lemma_first_match_from(text@, id_pattern@, 0);
    }
    let rest = sub_chars(text, at, text.len());
    let close = chars_of("/>");
    let end = match find_chars_from(&rest, &close, 0) {
        Some(end) => end,
        None => return None,
    };
    proof {
        crate::text::lemma_first_match_from(rest@, close@, 0);
    }
    let element = sub_chars(&rest, 0, end);
    let text_prefix = chars_of("text=\"");
    quoted_value(&element, &text_prefix)
}

fn attribute_or_empty(text: &Vec<char>, prefix: &str) -> (value: String)
    ensures
        value@ == or_empty(spec_quoted_value(text@, prefix@)),
{
    let p = chars_of(prefix);
    match quoted_value(text, &p) {
        Some(v) => crate::text::chars_to_string(&v),
        None => String::new(),
    }
}

/// Reads the header from the leading bytes of a `.vvp` file, which may stop anywhere.
/// Bytes that end before `m_uPolyMode` are an error rather than a guess, because a
/// mono patch taken for a poly one would play chords as single notes.
pub fn parse_vvp_header(prefix: &[u8]) -> (result: Result<VvpHeader, VvpError>)
    ensures
        match result {
            Ok(header) => spec_parse_vvp_header(prefix@) == Ok::<VvpHeaderView, VvpError>(header@),
            Err(e) => spec_parse_vvp_header(prefix@) == Err::<VvpHeaderView, VvpError>(e),
        },
{
    let text = lossy_chars(prefix);
    let root = chars_of("<VASTvaporizer2");
    if find_chars_from(&text, &root, 0).is_none() {
        return Err(VvpError::NotVaporizer2);
    }
    let id_pattern = chars_of("id=\"m_uPolyMode\"");
    let mode = match param_text(&text, &id_pattern) {
        Some(mode) => mode,
        None => return Err(VvpError::MissingPolyMode),
    };
    let poly = !chars_are(&mode, "Mono");
    Ok(
        VvpHeader {
            name: attribute_or_empty(&text, "PatchName=\""),
            category: attribute_or_empty(&text, "PatchCategory=\""),
            tag: attribute_or_empty(&text, "PatchTag=\""),
            author: attribute_or_empty(&text, "PatchAuthor=\""),
            poly,
        },
    )
}

} // verus!
