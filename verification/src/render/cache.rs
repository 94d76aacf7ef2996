//! The cache of baseline renders, keyed by content.
//!
//! The key is the SHA-256 digest of the YAML bytes and the template, in
//! lowercase hexadecimal; carriage returns do not count. A cached render is
//! trusted as it stands. A new one is written beside its final name first and
//! renamed after, so that a partial file is never taken for a render.

use vstd::prelude::*;
use sha2::{Digest, Sha256};
use crate::assets;
use crate::domain::Resume;
use crate::fs_layout;
use crate::fs_layout::{BinaryFsLayout, FsPath, PathModel};
use crate::render::markdown;
use crate::text;

verus! {

/// The SHA-256 digest of a sequence of bytes.
pub uninterp spec fn sha256_of(bytes: Seq<u8>) -> Seq<u8>;

/// `Sha256::digest`: the digest of the bytes, 32 bytes long.
#[verifier::external_body]
fn sha256(bytes: &Vec<u8>) -> (r: Vec<u8>)
    ensures
        r@ == sha256_of(bytes@),
        r@.len() == 32,
{
    Sha256::digest(bytes).to_vec()
}

/// `bytes` without its carriage returns.
pub open spec fn without_cr(bytes: Seq<u8>) -> Seq<u8>
    decreases bytes.len(),
{
    if bytes.len() == 0 {
        Seq::empty()
    } else if bytes.last() == 13u8 {
        without_cr(bytes.drop_last())
    } else {
        without_cr(bytes.drop_last()).push(bytes.last())
    }
}

/// What stands between the document and the template in the digested bytes.
pub open spec fn separator() -> Seq<u8> {
    seq![10u8, 45u8, 45u8, 45u8, 10u8]
}

/// The lowercase hexadecimal digit of a number below sixteen.
pub open spec fn hex_digit(n: int) -> char {
    if n < 10 {
        (48 + n) as char
    } else {
        (87 + n) as char
    }
}

/// `bytes` in lowercase hexadecimal.
pub open spec fn hex(bytes: Seq<u8>) -> Seq<char>
    decreases bytes.len(),
{
    if bytes.len() == 0 {
        Seq::empty()
    } else {
        hex(bytes.drop_last()).push(hex_digit(bytes.last() as int / 16)).push(
            hex_digit(bytes.last() as int % 16),
        )
    }
}

/// The cache key of a document under a template.
pub open spec fn key_of(yaml: Seq<u8>, template: Seq<u8>) -> Seq<char> {
    hex(sha256_of(without_cr(yaml) + separator() + without_cr(template)))
}

/// The bytes of the resume template.
pub open spec fn template_bytes() -> Seq<u8> {
    vstd::utf8::encode_utf8(assets::RESUME_TEMPLATE@)
}

/// The path of the cached render of a document.
pub open spec fn cache_file(layout: BinaryFsLayout, yaml: Seq<u8>) -> PathModel {
    fs_layout::binary_child(layout, "cache"@).child(
        "baseline-"@ + key_of(yaml, template_bytes()) + ".md"@,
    )
}

/// The path of a cached render while it is written.
pub open spec fn temporary_file(layout: BinaryFsLayout, yaml: Seq<u8>) -> PathModel {
    fs_layout::binary_child(layout, "cache"@).child(
        "baseline-"@ + key_of(yaml, template_bytes()) + ".md"@ + ".tmp"@,
    )
}

fn normalize_eol(bytes: &[u8]) -> (r: Vec<u8>)
    ensures
        r@ == without_cr(bytes@),
{
    let mut out: Vec<u8> = Vec::new();
    for i in 0..bytes.len()
        invariant
            out@ == without_cr(bytes@.take(i as int)),
    {
        let b: u8 = bytes[i];
        assert(bytes@.take(i + 1).drop_last() =~= bytes@.take(i as int));
        if b != 13u8 {
            out.push(b);
        }
    }
    assert(bytes@.take(bytes@.len() as int) =~= bytes@);
    out
}

fn hex_char(n: u8) -> (r: char)
    requires
        n < 16,
    ensures
        r == hex_digit(n as int),
{
    if n < 10 {
        (48u8 + n) as char
    } else {
        (87u8 + n) as char
    }
}

fn encode_hex_lowercase(bytes: &Vec<u8>) -> (r: String)
    ensures
        r@ == hex(bytes@),
{
    let mut out: String = String::new();
    for i in 0..bytes.len()
        invariant
            out@ == hex(bytes@.take(i as int)),
    {
        let b: u8 = bytes[i];
        assert(bytes@.take(i + 1).drop_last() =~= bytes@.take(i as int));
        out.push(hex_char(b / 16));
        out.push(hex_char(b % 16));
    }
    assert(bytes@.take(bytes@.len() as int) =~= bytes@);
    out
}

/// The cache key of a document under the resume template.
pub fn hash_key(yaml_bytes: &[u8]) -> (r: String)
    ensures
        r@ == key_of(yaml_bytes@, template_bytes()),
        r@.len() == 64,
        forall|i: int| 0 <= i < r@.len() ==> lowercase_hex(#[trigger] r@[i]),
{
    hash_key_with_template(yaml_bytes, assets::RESUME_TEMPLATE.as_bytes())
}

/// The cache key of a document under any template.
pub fn hash_key_with_template(yaml_bytes: &[u8], template_bytes: &[u8]) -> (r: String)
    ensures
        r@ == key_of(yaml_bytes@, template_bytes@),
        r@.len() == 64,
        forall|i: int| 0 <= i < r@.len() ==> lowercase_hex(#[trigger] r@[i]),
{
    let mut all = normalize_eol(yaml_bytes);
    all.push(10u8);
    all.push(45u8);
    all.push(45u8);
    all.push(45u8);
    all.push(10u8);
    let mut template = normalize_eol(template_bytes);
    all.append(&mut template);
    assert(all@ =~= without_cr(yaml_bytes@) + separator() + without_cr(template_bytes@));
    let digest = sha256(&all);
    proof {
        lemma_hex_shape(digest@);
    }
    encode_hex_lowercase(&digest)
}

/// A render, where it stands, and whether it came from the cache.
pub struct CacheResult {
    pub content: String,
    pub cached: bool,
    pub path: FsPath,
}

/// A file that has to be written: first under the temporary path, then renamed.
pub struct CacheWrite {
    /// The directory, which has to exist.
    pub dir: FsPath,
    pub temporary: FsPath,
    pub path: FsPath,
    pub content: String,
}

/// The path of the cached render of a document.
pub fn cache_path(layout: &BinaryFsLayout, yaml_bytes: &[u8]) -> (r: FsPath)
    ensures
        r@ == cache_file(*layout, yaml_bytes@),
{
    let key = hash_key(yaml_bytes);
    let name = text::concat3("baseline-", key.as_str(), ".md");
    layout.cache_dir().join(name.as_str())
}

/// The content of a render: the cached one where there is one, else a new one.
pub open spec fn render_content(stored: Option<Seq<char>>, resume: Resume) -> Seq<char> {
    match stored {
        Some(c) => c,
        None => markdown::baseline(resume),
    }
}

/// The contents of an optional string.
pub open spec fn optional_text(s: Option<String>) -> Option<Seq<char>> {
    match s {
        Some(t) => Some(t@),
        None => None,
    }
}

/// The baseline of a document. `stored` is the content of the file at
/// [`cache_path`], where there is such a file: it is returned as it stands.
/// Otherwise the resume is rendered, and the render has to be written.
pub fn load_or_render(
    layout: &BinaryFsLayout,
    yaml_bytes: &[u8],
    resume: &Resume,
    stored: Option<String>,
) -> (r: (CacheResult, Option<CacheWrite>))
    ensures
        r.0.content@ == render_content(optional_text(stored), *resume),
        r.0.cached == stored is Some,
        r.0.path@ == cache_file(*layout, yaml_bytes@),
        r.1 is Some <==> stored is None,
        r.1 matches Some(w) ==> {
            &&& w.content@ == r.0.content@
            &&& w.path@ == cache_file(*layout, yaml_bytes@)
            &&& w.dir@ == fs_layout::binary_child(*layout, "cache"@)
            &&& w.temporary@ == temporary_file(*layout, yaml_bytes@)
        },
{
    let path = cache_path(layout, yaml_bytes);
    match stored {
        Some(content) => (CacheResult { content, cached: true, path }, None),
        None => {
            let content = markdown::render_baseline(resume);
            let key = hash_key(yaml_bytes);
            let mut name = text::concat3("baseline-", key.as_str(), ".md");
            name.push_str(".tmp");
            let dir = layout.cache_dir();
            let temporary = dir.join(name.as_str());
            let write = CacheWrite {
                dir,
                temporary,
                path: cache_path(layout, yaml_bytes),
                content: content.clone(),
            };
            (CacheResult { content, cached: false, path }, Some(write))
        },
    }
}

// ---------------------------------------------------------------------------
// Laws
// ---------------------------------------------------------------------------

/// The content of a file, where it exists.
pub open spec fn looked_up(files: Map<PathModel, Seq<char>>, path: PathModel) -> Option<Seq<char>> {
    if files.dom().contains(path) {
        Some(files[path])
    } else {
        None
    }
}

/// The files once a document has been rendered through the cache: a hit leaves
/// them alone, a miss adds the render.
pub open spec fn after_render(
    files: Map<PathModel, Seq<char>>,
    layout: BinaryFsLayout,
    yaml: Seq<u8>,
    resume: Resume,
) -> Map<PathModel, Seq<char>> {
    let path = cache_file(layout, yaml);
    if files.dom().contains(path) {
        files
    } else {
        files.insert(path, render_content(None, resume))
    }
}

/// The second render of a document gives back what the first one gave, whatever
/// resume is at hand by then and whatever its line endings are, and it writes
/// nothing.
pub proof fn second_render_is_a_hit(
    files: Map<PathModel, Seq<char>>,
    layout: BinaryFsLayout,
    yaml: Seq<u8>,
    again: Seq<u8>,
    first: Resume,
    second: Resume,
)
    requires
        without_cr(again) == without_cr(yaml),
    ensures
        ({
            let after = after_render(files, layout, yaml, first);
            &&& render_content(looked_up(after, cache_file(layout, again)), second)
                == render_content(looked_up(files, cache_file(layout, yaml)), first)
            &&& after_render(after, layout, again, second) == after
        }),
{
    assert(cache_file(layout, again) == cache_file(layout, yaml));
}

/// Rendering a document leaves the renders of documents with another key alone.
pub proof fn renders_do_not_interfere(
    files: Map<PathModel, Seq<char>>,
    layout: BinaryFsLayout,
    yaml: Seq<u8>,
    other: Seq<u8>,
    resume: Resume,
)
    requires
        key_of(other, template_bytes()) != key_of(yaml, template_bytes()),
    ensures
        looked_up(after_render(files, layout, yaml, resume), cache_file(layout, other))
            == looked_up(files, cache_file(layout, other)),
{
    let k1 = key_of(yaml, template_bytes());
    let k2 = key_of(other, template_bytes());
    let n1 = "baseline-"@ + k1 + ".md"@;
    let n2 = "baseline-"@ + k2 + ".md"@;
    reveal_strlit("baseline-");
    reveal_strlit(".md");
    assert(n1.subrange(9, n1.len() - 3) =~= k1);
    assert(n2.subrange(9, n2.len() - 3) =~= k2);
    assert(n1 != n2);
    let p1 = cache_file(layout, yaml);
    let p2 = cache_file(layout, other);
    assert(p1.names.last() == n1);
    assert(p2.names.last() == n2);
    assert(p1 != p2);
}

/// `c` is a lowercase hexadecimal digit.
pub open spec fn lowercase_hex(c: char) -> bool {
    ('0' <= c && c <= '9') || ('a' <= c && c <= 'f')
}

proof fn lemma_hex_shape(bytes: Seq<u8>)
    ensures
        hex(bytes).len() == 2 * bytes.len(),
        forall|i: int| 0 <= i < hex(bytes).len() ==> lowercase_hex(#[trigger] hex(bytes)[i]),
    decreases bytes.len(),
{
    if bytes.len() > 0 {
        lemma_hex_shape(bytes.drop_last());
        let b = bytes.last() as int;
        assert(0 <= b / 16 < 16 && 0 <= b % 16 < 16);
        assert(lowercase_hex(hex_digit(b / 16)));
        assert(lowercase_hex(hex_digit(b % 16)));
    }
}

/// `bytes` with a carriage return in front of every newline.
pub open spec fn with_crlf(bytes: Seq<u8>) -> Seq<u8>
    decreases bytes.len(),
{
    if bytes.len() == 0 {
        Seq::empty()
    } else if bytes.last() == 10u8 {
        with_crlf(bytes.drop_last()).push(13u8).push(10u8)
    } else {
        with_crlf(bytes.drop_last()).push(bytes.last())
    }
}

proof fn lemma_crlf_is_dropped(bytes: Seq<u8>)
    ensures
        without_cr(with_crlf(bytes)) == without_cr(bytes),
    decreases bytes.len(),
{
    if bytes.len() > 0 {
        let before = with_crlf(bytes.drop_last());
        lemma_crlf_is_dropped(bytes.drop_last());
        if bytes.last() == 10u8 {
            assert(before.push(13u8).push(10u8).drop_last() =~= before.push(13u8));
            assert(before.push(13u8).drop_last() =~= before);
            assert(without_cr(before.push(13u8)) == without_cr(before));
        } else {
            assert(before.push(bytes.last()).drop_last() =~= before);
        }
    }
}

/// Line endings do not change the key, neither those of the document nor those
/// of the template.
pub proof fn key_ignores_line_endings(yaml: Seq<u8>, template: Seq<u8>)
    ensures
        key_of(with_crlf(yaml), template) == key_of(yaml, template),
        key_of(yaml, with_crlf(template)) == key_of(yaml, template),
{
    lemma_crlf_is_dropped(yaml);
    lemma_crlf_is_dropped(template);
}

} // verus!
