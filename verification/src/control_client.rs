//! Where the daemon's control socket lives: the scope naming rule
//! (`<slug>-<12 hex digits of SHA-256>`), the precedence between the
//! hash-derived scope and an adopted one, and the reading of `git` output.
//! The application crate performs the file system and process work and
//! hands the plain results to these functions.
use vstd::prelude::*;
use vstd::utf8::encode_utf8;
use crate::text::{
    chars_of, hex_prefix, is_lower_hex, lemma_hex_prefix_shape, owned, push_char,
    push_hex_prefix, push_str, string_from_chars, trim, trimmed,
};

verus! {

// ---------------------------------------------------------------------------
// Identifier sanitizing
// ---------------------------------------------------------------------------

pub open spec fn is_ascii_alnum(c: char) -> bool {
    ||| 'a' <= c <= 'z'
    ||| 'A' <= c <= 'Z'
    ||| '0' <= c <= '9'
}

pub open spec fn is_separator(c: char) -> bool {
    c == ' ' || c == '_' || c == '-'
}

/// `char::to_ascii_lowercase`.
pub open spec fn ascii_lower(c: char) -> char {
    if 'A' <= c <= 'Z' {
        ((c as int) + 32) as char
    } else {
        c
    }
}

/// One step of the sanitizer: the output so far and whether it ends in a
/// separator that was inserted, extended by the character `c`.
pub open spec fn sanitize_step(acc: (Seq<char>, bool), c: char) -> (Seq<char>, bool) {
    if is_ascii_alnum(c) {
        (acc.0.push(ascii_lower(c)), false)
    } else if is_separator(c) && acc.0.len() > 0 && !acc.1 {
        (acc.0.push('-'), true)
    } else {
        acc
    }
}

/// The sanitizer's state after reading all of `s`.
pub open spec fn sanitize_scan(s: Seq<char>) -> (Seq<char>, bool)
    decreases s.len(),
{
    if s.len() == 0 {
        (seq![], false)
    } else {
        sanitize_step(sanitize_scan(s.drop_last()), s.last())
    }
}

/// ASCII letters and digits of `value`, lower-cased, with each run of
/// spaces, `_` and `-` between them collapsed into one `-`; everything else
/// is dropped. `fallback` when nothing is left.
pub open spec fn sanitized(value: Seq<char>, fallback: Seq<char>) -> Seq<char> {
    let (out, trailing) = sanitize_scan(value);
    let out = if trailing { out.drop_last() } else { out };
    if out.len() == 0 {
        fallback
    } else {
        out
    }
}

/// A non-empty run of `[a-z0-9]` groups joined by single `-`.
pub open spec fn is_slug(s: Seq<char>) -> bool {
    &&& s.len() > 0
    &&& s[0] != '-'
    &&& s.last() != '-'
    &&& forall|i: int|
        0 <= i < s.len() ==> ('a' <= #[trigger] s[i] <= 'z' || '0' <= s[i] <= '9' || s[i] == '-')
    &&& forall|i: int| 0 <= i < s.len() - 1 ==> !(#[trigger] s[i] == '-' && s[i + 1] == '-')
}

fn ascii_lowercase(c: char) -> (r: char)
    ensures
        r == ascii_lower(c),
{
    if 'A' <= c && c <= 'Z' {
        let code: u32 = c as u32;
        let lowered: u32 = code + 32;
        (lowered as u8) as char
    } else {
        c
    }
}

/// Turns a directory name into the scope slug the daemon uses
/// (`"Repo Name"` becomes `"repo-name"`).
pub fn sanitize_identifier(value: &str, fallback: &str) -> (r: String)
    ensures
        r@ == sanitized(value@, fallback@),
{
    let cs = chars_of(value);
    let mut out: Vec<char> = Vec::new();
    let mut trailing = false;
    let mut i: usize = 0;
    while i < cs.len()
        invariant
            i <= cs.len(),
            cs@ == value@,
            (out@, trailing) == sanitize_scan(value@.take(i as int)),
        decreases cs.len() - i,
    {
        let ch = cs[i];
        if ('a' <= ch && ch <= 'z') || ('A' <= ch && ch <= 'Z') || ('0' <= ch && ch <= '9') {
            out.push(ascii_lowercase(ch));
            trailing = false;
        } else if (ch == ' ' || ch == '_' || ch == '-') && out.len() > 0 && !trailing {
            out.push('-');
            trailing = true;
        }
        i += 1;
        assert(value@.take(i as int).drop_last() == value@.take(i - 1));
    }
    assert(value@.take(cs.len() as int) == value@);
    proof {
        lemma_scan_ok(value@);
    }
    if trailing {
        out.pop();
    }
    if out.len() == 0 {
        owned(fallback)
    } else {
        string_from_chars(&out)
    }
}

/// What the sanitizer's state always satisfies.
pub open spec fn scan_ok(acc: (Seq<char>, bool)) -> bool {
    let s = acc.0;
    &&& forall|i: int|
        0 <= i < s.len() ==> ('a' <= #[trigger] s[i] <= 'z' || '0' <= s[i] <= '9' || s[i] == '-')
    &&& forall|i: int| 0 <= i < s.len() - 1 ==> !(#[trigger] s[i] == '-' && s[i + 1] == '-')
    &&& (s.len() > 0 ==> s[0] != '-')
    &&& (acc.1 <==> (s.len() > 0 && s.last() == '-'))
}

proof fn lemma_scan_ok(s: Seq<char>)
    ensures
        scan_ok(sanitize_scan(s)),
    decreases s.len(),
{
    if s.len() > 0 {
        lemma_scan_ok(s.drop_last());
        let acc = sanitize_scan(s.drop_last());
        let next = sanitize_step(acc, s.last());
        assert(next == sanitize_scan(s));
        let c = s.last();
        if is_ascii_alnum(c) {
            let o = acc.0.push(ascii_lower(c));
            assert(o.last() == ascii_lower(c));
            assert forall|i: int| 0 <= i < o.len() - 1 implies !(#[trigger] o[i] == '-' && o[i + 1]
                == '-') by {
                if i + 1 < o.len() - 1 {
                    assert(o[i] == acc.0[i] && o[i + 1] == acc.0[i + 1]);
                }
            }
        } else if is_separator(c) && acc.0.len() > 0 && !acc.1 {
            let o = acc.0.push('-');
            assert forall|i: int| 0 <= i < o.len() - 1 implies !(#[trigger] o[i] == '-' && o[i + 1]
                == '-') by {
                if i + 1 < o.len() - 1 {
                    assert(o[i] == acc.0[i] && o[i + 1] == acc.0[i + 1]);
                } else {
                    assert(o[i] == acc.0.last());
                }
            }
        }
    }
}

/// Law: the sanitizer yields either the fallback or a slug: lower-case
/// ASCII letters and digits in groups joined by single `-`, with no `-` at
/// either end.
pub proof fn lemma_sanitized_is_slug(value: Seq<char>, fallback: Seq<char>)
    ensures
        sanitized(value, fallback) == fallback || is_slug(sanitized(value, fallback)),
{
    lemma_scan_ok(value);
    let (out, trailing) = sanitize_scan(value);
    if trailing {
        let o = out.drop_last();
        if o.len() > 0 {
            assert(o[0] == out[0]);
            assert(out[o.len() - 1] != '-' || out[o.len() as int] != '-');
            assert(o.last() == out[o.len() - 1]);
            assert forall|i: int| 0 <= i < o.len() implies ('a' <= #[trigger] o[i] <= 'z' || '0'
                <= o[i] <= '9' || o[i] == '-') by {
                assert(o[i] == out[i]);
            }
            assert forall|i: int| 0 <= i < o.len() - 1 implies !(#[trigger] o[i] == '-' && o[i + 1]
                == '-') by {
                assert(o[i] == out[i] && o[i + 1] == out[i + 1]);
            }
        }
    }
}

proof fn lemma_scan_of_slug_prefix(s: Seq<char>, k: int)
    requires
        is_slug(s),
        0 <= k <= s.len(),
    ensures
        sanitize_scan(s.take(k)) == (s.take(k), k > 0 && s[k - 1] == '-'),
    decreases k,
{
    if k > 0 {
        lemma_scan_of_slug_prefix(s, k - 1);
        assert(s.take(k).drop_last() == s.take(k - 1));
        assert(s.take(k).last() == s[k - 1]);
        let c = s[k - 1];
        assert('a' <= c <= 'z' || '0' <= c <= '9' || c == '-');
        if c == '-' {
            assert(k - 1 > 0);
            assert(!(s[k - 2] == '-' && s[k - 1] == '-'));
        }
        assert(s.take(k - 1).push(c) == s.take(k));
    } else {
        assert(s.take(0) == Seq::<char>::empty());
    }
}

/// Law: a slug passes through the sanitizer unchanged, so sanitizing is
/// idempotent on everything it produces (other than a non-slug fallback).
pub proof fn lemma_sanitize_slug_unchanged(s: Seq<char>, fallback: Seq<char>)
    requires
        is_slug(s),
    ensures
        sanitized(s, fallback) == s,
{
    lemma_scan_of_slug_prefix(s, s.len() as int);
    assert(s.take(s.len() as int) == s);
}

proof fn lemma_scan_skips_char(a: Seq<char>, c: char, b: Seq<char>)
    requires
        !('a' <= c <= 'z' || 'A' <= c <= 'Z' || '0' <= c <= '9' || c == ' ' || c == '_' || c
            == '-'),
    ensures
        sanitize_scan(a + seq![c] + b) == sanitize_scan(a + b),
    decreases b.len(),
{
    if b.len() == 0 {
        assert(a + seq![c] + b == a.push(c));
        assert(a.push(c).drop_last() == a);
        assert(a + b == a);
    } else {
        lemma_scan_skips_char(a, c, b.drop_last());
        assert((a + seq![c] + b).drop_last() == a + seq![c] + b.drop_last());
        assert((a + b).drop_last() == a + b.drop_last());
        assert((a + seq![c] + b).last() == b.last());
        assert((a + b).last() == b.last());
    }
}

/// Law: a character other than an ASCII letter, an ASCII digit, a space,
/// `_` or `-` contributes nothing to the slug: removing it anywhere leaves
/// the result unchanged (`"animus.cli"` sanitizes as `"animuscli"`).
pub proof fn lemma_sanitize_drops_other_chars(
    a: Seq<char>,
    c: char,
    b: Seq<char>,
    fallback: Seq<char>,
)
    requires
        !('a' <= c <= 'z' || 'A' <= c <= 'Z' || '0' <= c <= '9' || c == ' ' || c == '_' || c
            == '-'),
    ensures
        sanitized(a + seq![c] + b, fallback) == sanitized(a + b, fallback),
{
    lemma_scan_skips_char(a, c, b);
}

/// Law: ASCII letters come out lower-cased and digits unchanged, each in
/// its place: appending one to an input whose slug has no pending
/// separator appends it (lower-cased) to the slug.
pub proof fn lemma_sanitize_appends_alnum(a: Seq<char>, c: char, fallback: Seq<char>)
    requires
        'a' <= c <= 'z' || 'A' <= c <= 'Z' || '0' <= c <= '9',
    ensures
        sanitize_scan(a.push(c)).0 == sanitize_scan(a).0.push(
            if 'A' <= c <= 'Z' {
                ((c as int) + 32) as char
            } else {
                c
            },
        ),
        !sanitize_scan(a.push(c)).1,
        sanitized(a.push(c), fallback) == sanitize_scan(a).0.push(
            if 'A' <= c <= 'Z' {
                ((c as int) + 32) as char
            } else {
                c
            },
        ),
{
    assert(a.push(c).drop_last() == a);
}

// ---------------------------------------------------------------------------
// Scope naming
// ---------------------------------------------------------------------------

/// SHA-256 of a byte string (32 bytes).
pub uninterp spec fn sha256_digest(data: Seq<u8>) -> Seq<u8>;

/// `Path::file_name` of a path, as text.
pub uninterp spec fn path_file_name(path: Seq<char>) -> Option<Seq<char>>;

/// `Path::parent` of a path, as text.
pub uninterp spec fn path_parent(path: Seq<char>) -> Option<Seq<char>>;

/// Hashes `data` with `sha2::Sha256` (`Digest::digest`). Claimed: the
/// result is the named SHA-256 digest of the input and has the 32 bytes
/// that the crate's `OutputSize = U32` fixes.
#[verifier::external_body]
fn sha256(data: &[u8]) -> (r: Vec<u8>)
    ensures
        r@ == sha256_digest(data@),
        r@.len() == 32,
{
    <sha2::Sha256 as sha2::Digest>::digest(data).to_vec()
}

/// A last path component that `Path` reads as a plain name: not empty,
/// without `/`, and neither `.` nor `..`.
pub open spec fn is_plain_name(n: Seq<char>) -> bool {
    &&& n.len() > 0
    &&& forall|i: int| 0 <= i < n.len() ==> #[trigger] n[i] != '/'
    &&& n != seq!['.']
    &&& n != seq!['.', '.']
}

/// `std::path::Path::file_name` of `path`, converted to text. Claimed: the
/// result is the named value for the input; a file name taken from text is
/// always text, so the conversion loses nothing; and a path ending in `/`
/// followed by a plain name has that name as its file name (the final
/// component, as `Path::file_name` documents).
#[verifier::external_body]
fn file_name_of(path: &str) -> (r: Option<String>)
    ensures
        r is Some <==> path_file_name(path@) is Some,
        r matches Some(n) ==> path_file_name(path@) == Some(n@),
        r matches Some(x) ==> forall|a: Seq<char>, n: Seq<char>|
            path@ == a + seq!['/'] + n && is_plain_name(n) ==> x@ == n,
        r is None ==> forall|a: Seq<char>, n: Seq<char>|
            !(path@ == a + seq!['/'] + n && is_plain_name(n)),
{
    match std::path::Path::new(path).file_name() {
        Some(n) => match n.to_str() {
            Some(t) => Some(t.to_string()),
            None => None,
        },
        None => None,
    }
}

/// `std::path::Path::parent` of `path`, converted to text. Claimed: the
/// result is the named value for the input.
#[verifier::external_body]
fn parent_of(path: &str) -> (r: Option<String>)
    ensures
        r is Some <==> path_parent(path@) is Some,
        r matches Some(n) ==> path_parent(path@) == Some(n@),
{
    match std::path::Path::new(path).parent() {
        Some(p) => match p.to_str() {
            Some(t) => Some(t.to_string()),
            None => None,
        },
        None => None,
    }
}

pub open spec fn repo_fallback() -> Seq<char> {
    seq!['r', 'e', 'p', 'o']
}

/// The slug part of a scope: the sanitized file name, or `repo`.
pub open spec fn repo_slug(file_name: Option<Seq<char>>) -> Seq<char> {
    match file_name {
        Some(n) => {
            let s = sanitized(n, repo_fallback());
            if s.len() == 0 {
                repo_fallback()
            } else {
                s
            }
        },
        None => repo_fallback(),
    }
}

/// `<slug>-<hex of the first six digest bytes>`.
pub open spec fn scope_text(file_name: Option<Seq<char>>, digest: Seq<u8>) -> Seq<char> {
    repo_slug(file_name) + seq!['-'] + hex_prefix(digest, 6)
}

/// Assembles a scope name from the project root's file name and the
/// SHA-256 digest of its path.
pub fn scope_from_parts(file_name: Option<&str>, digest: &[u8]) -> (r: String)
    requires
        digest@.len() >= 6,
    ensures
        r@ == scope_text(
            match file_name {
                Some(n) => Some(n@),
                None => None,
            },
            digest@,
        ),
{
    let fallback = "repo";
    proof {
        reveal_strlit("repo");
    }
    assert(fallback@ == repo_fallback());
    let mut r = match file_name {
        Some(n) => {
            let s = sanitize_identifier(n, fallback);
            if s.as_str().is_empty() {
                owned(fallback)
            } else {
                s
            }
        },
        None => owned(fallback),
    };
    push_char(&mut r, '-');
    push_hex_prefix(&mut r, digest, 6);
    r
}

/// A scope name: a slug, `-`, and twelve lower-case hex digits.
pub open spec fn is_scope_name(s: Seq<char>) -> bool {
    &&& s.len() >= 13
    &&& s[s.len() - 13] == '-'
    &&& is_slug(s.take(s.len() - 13))
    &&& forall|i: int| s.len() - 12 <= i < s.len() ==> is_lower_hex(#[trigger] s[i])
}

/// Law: every scope name has the daemon's shape `<slug>-<12 hex digits>`.
pub proof fn lemma_scope_shape(file_name: Option<Seq<char>>, digest: Seq<u8>)
    requires
        digest.len() >= 6,
    ensures
        is_scope_name(scope_text(file_name, digest)),
        scope_text(file_name, digest).take(scope_text(file_name, digest).len() - 13) == repo_slug(
            file_name,
        ),
{
    let slug = repo_slug(file_name);
    let fb = repo_fallback();
    assert(is_slug(fb)) by {
        assert forall|i: int| 0 <= i < fb.len() - 1 implies !(#[trigger] fb[i] == '-' && fb[i + 1]
            == '-') by {}
    }
    if let Some(n) = file_name {
        lemma_sanitized_is_slug(n, fb);
    }
    assert(is_slug(slug));
    lemma_hex_prefix_shape(digest, 6);
    let h = hex_prefix(digest, 6);
    let t = scope_text(file_name, digest);
    assert(t == slug + seq!['-'] + h);
    assert(t.len() == slug.len() + 13);
    assert(t.take(t.len() - 13) =~= slug);
    assert forall|i: int| t.len() - 12 <= i < t.len() implies is_lower_hex(#[trigger] t[i]) by {
        assert(t[i] == h[i - slug.len() - 1]);
    }
}

/// The scope directory name the daemon uses for a project whose
/// canonical root is `canonical_root`.
pub open spec fn scope_for(canonical_root: Seq<char>) -> Seq<char> {
    scope_text(path_file_name(canonical_root), sha256_digest(encode_utf8(canonical_root)))
}

/// `<slug>-<suffix>` for the project at `canonical_root` (already
/// canonicalized by the caller, or the path as given when that failed).
pub fn repository_scope(canonical_root: &str) -> (r: String)
    ensures
        r@ == scope_for(canonical_root@),
        is_scope_name(r@),
        forall|a: Seq<char>, n: Seq<char>|
            canonical_root@ == a + seq!['/'] + n && is_plain_name(n) ==> r@.take(r@.len() - 13)
                == repo_slug(Some(n)),
{
    let name = file_name_of(canonical_root);
    let r = match name {
        Some(n) => repository_scope_named(canonical_root, Some(n.as_str())),
        None => repository_scope_named(canonical_root, None),
    };
    r
}

/// The scope of a project whose root path reads as `path_text`, when its
/// file name is `file_name` (none when the path has no file name, or when
/// that name is not text).
pub fn repository_scope_named(path_text: &str, file_name: Option<&str>) -> (r: String)
    ensures
        r@ == scope_text(
            match file_name {
                Some(n) => Some(n@),
                None => None,
            },
            sha256_digest(encode_utf8(path_text@)),
        ),
        is_scope_name(r@),
        r@.take(r@.len() - 13) == repo_slug(
            match file_name {
                Some(n) => Some(n@),
                None => None,
            },
        ),
{
    let digest = sha256(path_text.as_bytes());
    proof {
        lemma_scope_shape(
            match file_name {
                Some(n) => Some(n@),
                None => None,
            },
            digest@,
        );
    }
    scope_from_parts(file_name, digest.as_slice())
}

// ---------------------------------------------------------------------------
// Paths
// ---------------------------------------------------------------------------

/// `Path::join` on Unix: an absolute component replaces the base; otherwise
/// a `/` is inserted unless the base is empty or already ends in one.
pub open spec fn path_join(base: Seq<char>, comp: Seq<char>) -> Seq<char> {
    if comp.len() > 0 && comp[0] == '/' {
        comp
    } else if base.len() == 0 || base.last() == '/' {
        base + comp
    } else {
        base + seq!['/'] + comp
    }
}

pub fn join_path(base: &str, comp: &str) -> (r: String)
    ensures
        r@ == path_join(base@, comp@),
{
    let b = chars_of(base);
    let c = chars_of(comp);
    if c.len() > 0 && c[0] == '/' {
        owned(comp)
    } else {
        let mut r = owned(base);
        if !(b.len() == 0 || b[b.len() - 1] == '/') {
            push_char(&mut r, '/');
        }
        push_str(&mut r, comp);
        r
    }
}

pub open spec fn dot_animus() -> Seq<char> {
    seq!['.', 'a', 'n', 'i', 'm', 'u', 's']
}

pub open spec fn control_sock() -> Seq<char> {
    seq!['c', 'o', 'n', 't', 'r', 'o', 'l', '.', 's', 'o', 'c', 'k']
}

fn dot_animus_str() -> (r: &'static str)
    ensures
        r@ == dot_animus(),
{
    proof {
        reveal_strlit(".animus");
    }
    ".animus"
}

fn control_sock_str() -> (r: &'static str)
    ensures
        r@ == control_sock(),
{
    proof {
        reveal_strlit("control.sock");
    }
    "control.sock"
}

/// `~/.animus/<scope>` for the project at `canonical_root`.
pub fn scope_dir_for_project_root(home: &str, canonical_root: &str) -> (r: String)
    ensures
        r@ == path_join(path_join(home@, dot_animus()), scope_for(canonical_root@)),
{
    let ao = join_path(home, dot_animus_str());
    let scope = repository_scope(canonical_root);
    join_path(ao.as_str(), scope.as_str())
}

/// `~/.animus/<scope>/control.sock`.
pub fn scoped_socket_path(home: &str, scope: &str) -> (r: String)
    ensures
        r@ == path_join(path_join(path_join(home@, dot_animus()), scope@), control_sock()),
{
    let ao = join_path(home, dot_animus_str());
    let dir = join_path(ao.as_str(), scope);
    join_path(dir.as_str(), control_sock_str())
}

/// `<dir>/control.sock` for an adopted scope directory.
pub fn socket_in_dir(dir: &str) -> (r: String)
    ensures
        r@ == path_join(dir@, control_sock()),
{
    join_path(dir, control_sock_str())
}

/// `<project_root>/.animus/control.sock`, used when there is no home directory.
pub fn project_local_socket_path(project_root: &str) -> (r: String)
    ensures
        r@ == path_join(path_join(project_root@, dot_animus()), control_sock()),
{
    let ao = join_path(project_root, dot_animus_str());
    join_path(ao.as_str(), control_sock_str())
}

/// The socket precedence: the hash-derived socket when it exists, else the
/// socket of an adopted scope directory, else the hash-derived path anyway.
pub fn pick_socket_path(scoped: String, scoped_exists: bool, adopted_dir: Option<&str>) -> (r:
    String)
    ensures
        scoped_exists ==> r@ == scoped@,
        !scoped_exists && adopted_dir is Some ==> r@ == path_join(adopted_dir->0@, control_sock()),
        !scoped_exists && adopted_dir is None ==> r@ == scoped@,
{
    if scoped_exists {
        return scoped;
    }
    match adopted_dir {
        Some(d) => socket_in_dir(d),
        None => scoped,
    }
}

// ---------------------------------------------------------------------------
// Adopting an existing scope directory
// ---------------------------------------------------------------------------

/// What a scope directory's `.project-root` marker says.
pub enum MarkerState {
    /// No readable marker.
    Missing,
    /// The recorded path exists; its canonical form.
    Live(String),
    /// The recorded path no longer exists.
    Stale,
}

/// One entry of `~/.animus/`, as the application read it.
pub struct ScopeCandidate {
    pub is_dir: bool,
    pub marker: MarkerState,
    /// Contents of the entry's `.git-origin` file, when readable.
    pub origin_file: Option<String>,
}

/// The entry's `.git-origin` (trimmed) equals our remote origin.
pub open spec fn origin_matches(c: ScopeCandidate, our_origin: Option<Seq<char>>) -> bool {
    &&& our_origin is Some
    &&& c.origin_file is Some
    &&& trimmed(c.origin_file->0@) == our_origin->0
}

/// An entry the daemon adopts directly: a directory whose marker names our
/// path, or names a path that no longer exists (the project was moved).
pub open spec fn adoptable(c: ScopeCandidate, our_canonical: Seq<char>) -> bool {
    &&& c.is_dir
    &&& match c.marker {
        MarkerState::Live(rc) => rc@ == our_canonical,
        MarkerState::Stale => true,
        MarkerState::Missing => false,
    }
}

/// A legacy entry: a directory without a marker whose `.git-origin`
/// matches ours.
pub open spec fn legacy_match(c: ScopeCandidate, our_origin: Option<Seq<char>>) -> bool {
    c.is_dir && c.marker is Missing && origin_matches(c, our_origin)
}

/// `i` is the first directly adoptable entry.
pub open spec fn first_adoptable(cands: Seq<ScopeCandidate>, our: Seq<char>, i: int) -> bool {
    &&& adoptable(cands[i], our)
    &&& forall|j: int| 0 <= j < i ==> !adoptable(#[trigger] cands[j], our)
}

/// `i` is the first legacy entry.
pub open spec fn first_legacy(cands: Seq<ScopeCandidate>, our_origin: Option<Seq<char>>, i: int) -> bool {
    &&& legacy_match(cands[i], our_origin)
    &&& forall|j: int| 0 <= j < i ==> !legacy_match(#[trigger] cands[j], our_origin)
}

/// No entry is directly adoptable.
pub open spec fn none_adoptable(cands: Seq<ScopeCandidate>, our: Seq<char>) -> bool {
    forall|j: int| 0 <= j < cands.len() ==> !adoptable(#[trigger] cands[j], our)
}

/// The entry adopted among `cands`: the first directly adoptable one; when
/// there is none, the first legacy one; when there is none either, nothing.
pub open spec fn is_adopted(
    cands: Seq<ScopeCandidate>,
    our_canonical: Seq<char>,
    our_origin: Option<Seq<char>>,
    r: Option<int>,
) -> bool {
    match r {
        Some(i) => {
            &&& 0 <= i < cands.len()
            &&& (first_adoptable(cands, our_canonical, i) || (first_legacy(cands, our_origin, i)
                && none_adoptable(cands, our_canonical)))
        },
        None => none_adoptable(cands, our_canonical) && forall|j: int|
            0 <= j < cands.len() ==> !legacy_match(#[trigger] cands[j], our_origin),
    }
}

/// Law: while some directory has a marker that is ours or stale, exactly one
/// answer meets the rule, and it is the first such directory: a legacy
/// (origin-only) entry is never chosen then.
pub proof fn lemma_adoption_determined(
    cands: Seq<ScopeCandidate>,
    our: Seq<char>,
    our_origin: Option<Seq<char>>,
    r1: Option<int>,
    r2: Option<int>,
    k: int,
)
    requires
        is_adopted(cands, our, our_origin, r1),
        is_adopted(cands, our, our_origin, r2),
        0 <= k < cands.len(),
        adoptable(cands[k], our),
    ensures
        r1 == r2,
        r1 matches Some(i) && adoptable(cands[i], our) && i <= k,
{
    match (r1, r2) {
        (Some(i1), Some(i2)) => {
            assert(first_adoptable(cands, our, i1)) by {
                if !first_adoptable(cands, our, i1) {
                    assert(!adoptable(cands[k], our));
                }
            }
            assert(first_adoptable(cands, our, i2)) by {
                if !first_adoptable(cands, our, i2) {
                    assert(!adoptable(cands[k], our));
                }
            }
            if i1 < i2 {
                assert(!adoptable(cands[i1], our));
            } else if i2 < i1 {
                assert(!adoptable(cands[i2], our));
            }
            if k < i1 {
                assert(!adoptable(cands[k], our));
            }
        },
        (None, _) => {
            assert(!adoptable(cands[k], our));
        },
        (_, None) => {
            assert(!adoptable(cands[k], our));
        },
    }
}

pub open spec fn opt_view(o: Option<String>) -> Option<Seq<char>> {
    match o {
        Some(s) => Some(s@),
        None => None,
    }
}

fn origin_match_exec(c: &ScopeCandidate, our_origin: &Option<String>) -> (b: bool)
    ensures
        b == origin_matches(*c, opt_view(*our_origin)),
{
    match (our_origin, &c.origin_file) {
        (Some(our), Some(existing)) => {
            let t = trim(existing.as_str());
            t == *our
        },
        _ => false,
    }
}

/// Which entry of `~/.animus/` the daemon would adopt for our project:
/// the first directory whose marker canonicalizes to our path or names a
/// path that no longer exists; failing that, the first directory without a
/// marker whose `.git-origin` matches ours.
pub fn adopted_scope_index(
    our_canonical: &str,
    our_origin: &Option<String>,
    cands: &Vec<ScopeCandidate>,
) -> (r: Option<usize>)
    ensures
        is_adopted(
            cands@,
            our_canonical@,
            opt_view(*our_origin),
            match r {
                Some(k) => Some(k as int),
                None => None,
            },
        ),
{
    let ghost oo = opt_view(*our_origin);
    let ghost our = our_canonical@;
    let mut origin_match: Option<usize> = None;
    let mut i: usize = 0;
    while i < cands.len()
        invariant
            i <= cands.len(),
            oo == opt_view(*our_origin),
            our == our_canonical@,
            forall|j: int| 0 <= j < i ==> !adoptable(#[trigger] cands@[j], our),
            match origin_match {
                Some(k) => {
                    &&& k < i
                    &&& legacy_match(cands@[k as int], oo)
                    &&& forall|j: int| 0 <= j < k ==> !legacy_match(#[trigger] cands@[j], oo)
                },
                None => forall|j: int| 0 <= j < i ==> !legacy_match(#[trigger] cands@[j], oo),
            },
        decreases cands.len() - i,
    {
        let c = &cands[i];
        assert(cands@[i as int] == *c);
        if c.is_dir {
            match &c.marker {
                MarkerState::Live(rc) => {
                    if *rc == our_canonical.to_owned() {
                        return Some(i);
                    }
                },
                MarkerState::Stale => {
                    return Some(i);
                },
                MarkerState::Missing => {
                    if origin_match.is_none() && origin_match_exec(c, our_origin) {
                        origin_match = Some(i);
                    }
                },
            }
        }
        i += 1;
    }
    origin_match
}

// ---------------------------------------------------------------------------
// Reading `git` output
// ---------------------------------------------------------------------------

/// `git remote get-url origin`: the trimmed output of a successful run, if
/// it is not empty.
pub fn remote_origin_from_output(success: bool, stdout: &str) -> (r: Option<String>)
    ensures
        r == None::<String> <==> !(success && trimmed(stdout@).len() > 0),
        r matches Some(o) ==> o@ == trimmed(stdout@),
{
    if !success {
        return None;
    }
    let t = trim(stdout);
    if t.as_str().is_empty() {
        None
    } else {
        Some(t)
    }
}

/// `git rev-parse --git-common-dir` run in `start`: the directory it names,
/// joined onto `start` when relative; none when the run failed or printed
/// nothing.
pub fn git_dir_from_output(start: &str, success: bool, stdout: &str) -> (r: Option<String>)
    ensures
        r == None::<String> <==> !(success && trimmed(stdout@).len() > 0),
        r matches Some(d) ==> d@ == path_join(start@, trimmed(stdout@)),
{
    if !success {
        return None;
    }
    let raw = trim(stdout);
    let rc = chars_of(raw.as_str());
    if rc.len() == 0 {
        return None;
    }
    if rc[0] == '/' {
        Some(raw)
    } else {
        Some(join_path(start, raw.as_str()))
    }
}

pub open spec fn dot_git() -> Seq<char> {
    seq!['.', 'g', 'i', 't']
}

/// The project root for a (canonicalized) git common directory: its parent
/// when the directory is named `.git`, none otherwise (submodule layouts).
pub fn repo_root_from_git_dir(git_dir: &str) -> (r: Option<String>)
    ensures
        path_file_name(git_dir@) != Some(dot_git()) ==> r is None,
        path_file_name(git_dir@) == Some(dot_git()) ==> opt_view(r) == path_parent(git_dir@),
{
    let name = file_name_of(git_dir);
    let parent = parent_of(git_dir);
    match (name, parent) {
        (Some(n), Some(p)) => root_of_git_dir(Some(n.as_str()), Some(p.as_str())),
        (Some(n), None) => root_of_git_dir(Some(n.as_str()), None),
        (None, Some(p)) => root_of_git_dir(None, Some(p.as_str())),
        (None, None) => root_of_git_dir(None, None),
    }
}

/// The project root given a git common directory's file name and parent:
/// the parent when the name is `.git`, none otherwise.
pub fn root_of_git_dir(file_name: Option<&str>, parent: Option<&str>) -> (r: Option<String>)
    ensures
        !(file_name matches Some(n) && n@ == dot_git()) ==> r is None,
        file_name matches Some(n) && n@ == dot_git() ==> opt_view(r) == match parent {
            Some(p) => Some(p@),
            None => None,
        },
{
    let expected = ".git";
    proof {
        reveal_strlit(".git");
    }
    assert(expected@ =~= dot_git());
    match file_name {
        Some(n) => {
            if !(n.to_owned() == expected.to_owned()) {
                return None;
            }
        },
        None => {
            return None;
        },
    }
    match parent {
        Some(p) => Some(owned(p)),
        None => None,
    }
}

} // verus!
