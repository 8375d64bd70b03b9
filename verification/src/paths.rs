//! Resolution of request path fragments against the public root.
//!
//! A fragment comes straight from the URL and is untrusted. It is accepted
//! only when it is relative and contains no `..` segment; an accepted
//! fragment is resolved by prefixing the public root directory, so every
//! resolved path stays inside the root.

use vstd::prelude::*;

verus! {

/// There is a `..` path segment starting at position `i` of `s`: the two
/// dots are delimited by `/` (or the string's ends) on both sides.
pub open spec fn dotdot_at(s: Seq<char>, i: int) -> bool {
    &&& 0 <= i
    &&& i + 2 <= s.len()
    &&& s[i] == '.'
    &&& s[i + 1] == '.'
    &&& (i == 0 || s[i - 1] == '/')
    &&& (i + 2 == s.len() || s[i + 2] == '/')
}

pub open spec fn has_dotdot_segment(s: Seq<char>) -> bool {
    exists|i: int| dotdot_at(s, i)
}

/// A fragment is safe when it is relative (no leading `/`) and never steps
/// upward (no `..` segment).
pub open spec fn is_safe_fragment(s: Seq<char>) -> bool {
    &&& !has_dotdot_segment(s)
    &&& (s.len() == 0 || s[0] != '/')
}

/// Every resolved path begins with the public root directory and a slash.
pub open spec fn root_prefix() -> Seq<char> {
    "static/"@
}

/// The path a safe fragment resolves to.
pub open spec fn resolved_spec(frag: Seq<char>) -> Seq<char> {
    root_prefix() + frag
}

/// The public root directory itself, without the trailing slash.
pub open spec fn root_name() -> Seq<char> {
    "static"@
}

/// `p` bears the root prefix.
pub open spec fn starts_with_root(p: Seq<char>) -> bool {
    &&& p.len() >= root_prefix().len()
    &&& p.subrange(0, root_prefix().len() as int) == root_prefix()
}

/// The fragment a listing link carries for a path: the path without the
/// root prefix, so that resolving the fragment leads back to the path.
/// The root directory itself maps to the empty fragment (which resolves
/// to the root), and a path that does not bear the prefix is kept as it
/// is.
pub open spec fn href_fragment_of(p: Seq<char>) -> Seq<char> {
    if p == root_name() {
        Seq::empty()
    } else if starts_with_root(p) {
        p.subrange(root_prefix().len() as int, p.len() as int)
    } else {
        p
    }
}

/// Strips the root prefix from a path, as `href_fragment_of` describes.
pub fn strip_root_prefix(p: &str) -> (r: String)
    ensures
        r@ == href_fragment_of(p@),
{
    proof {
        reveal_strlit("static");
        reveal_strlit("static/");
    }
    let len = p.unicode_len();
    if len == 6 {
        proof {
            assert(p@.subrange(0, 6) =~= p@);
        }
        let head = p.substring_char(0, 6).to_owned();
        if head == String::from_str("static") {
            return String::new();
        }
        return p.to_owned();
    }
    if len >= 7 {
        let head = p.substring_char(0, 7).to_owned();
        if head == String::from_str("static/") {
            return p.substring_char(7, len).to_owned();
        }
        return p.to_owned();
    }
    p.to_owned()
}

/// A path is confined to the public root when it starts with the root
/// prefix and never steps upward.
pub open spec fn confined_to_root(p: Seq<char>) -> bool {
    &&& p.len() >= root_prefix().len()
    &&& p.subrange(0, root_prefix().len() as int) == root_prefix()
    &&& !has_dotdot_segment(p)
}

/// Decides whether a fragment is safe to resolve.
pub fn fragment_is_safe(frag: &str) -> (r: bool)
    ensures
        r == is_safe_fragment(frag@),
{
    let len = frag.unicode_len();
    if len > 0 && frag.get_char(0) == '/' {
        return false;
    }
    let mut i: usize = 0;
    while i < len
        invariant
            len == frag@.len(),
            i <= len,
            len == 0 || frag@[0] != '/',
            forall|j: int| j < i ==> !dotdot_at(frag@, j),
        decreases len - i,
    {
        if len - i >= 2 && frag.get_char(i) == '.' && frag.get_char(i + 1) == '.' && (i == 0
            || frag.get_char(i - 1) == '/') && (len - i == 2 || frag.get_char(i + 2) == '/') {
            assert(dotdot_at(frag@, i as int));
            return false;
        }
        i += 1;
    }
    assert(forall|j: int| !dotdot_at(frag@, j));
    true
}

/// Resolves a request fragment against the public root: `Some` exactly on
/// safe fragments, and then the root-prefixed path.
pub fn resolve_request_path(frag: &str) -> (r: Option<String>)
    ensures
        r is Some <==> is_safe_fragment(frag@),
        r matches Some(p) ==> p@ == resolved_spec(frag@),
{
    if fragment_is_safe(frag) {
        let mut s = String::from_str("static/");
        s.append(frag);
        Some(s)
    } else {
        None
    }
}

/// Law: resolving any safe fragment yields a path that is confined to the
/// public root — it starts with the root prefix and holds no `..` segment,
/// so neither reads nor writes can escape the root.
/// Law: following a listing link leads back to the listed path — for
/// any path that bears the root prefix, never steps upward, and does not
/// begin a double slash right after the prefix, the href fragment of its
/// link is a safe fragment, and resolving it yields the path itself.
pub proof fn lemma_listing_link_round_trip(p: Seq<char>)
    requires
        starts_with_root(p),
        !has_dotdot_segment(p),
        root_prefix().len() < p.len() ==> p[root_prefix().len() as int] != '/',
    ensures
        is_safe_fragment(href_fragment_of(p)),
        resolved_spec(href_fragment_of(p)) == p,
{
    reveal_strlit("static");
    reveal_strlit("static/");
    let frag = href_fragment_of(p);
    assert(p != root_name());
    assert(frag == p.subrange(7, p.len() as int));
    assert(resolved_spec(frag) =~= p);
    assert forall|i: int| !dotdot_at(frag, i) by {
        if dotdot_at(frag, i) {
            assert(p[6] == '/');
            assert(dotdot_at(p, i + 7));
        }
    }
    if frag.len() > 0 {
        assert(frag[0] == p[7]);
    }
}

pub proof fn lemma_resolution_confined(frag: Seq<char>)
    requires
        is_safe_fragment(frag),
    ensures
        confined_to_root(resolved_spec(frag)),
{
    reveal_strlit("static/");
    let p = resolved_spec(frag);
    assert(p.subrange(0, root_prefix().len() as int) =~= root_prefix());
    assert forall|i: int| !dotdot_at(p, i) by {
        if 0 <= i && i + 2 <= p.len() && p[i] == '.' && p[i + 1] == '.' {
            if i >= 7 {
                if dotdot_at(p, i) {
                    assert(dotdot_at(frag, i - 7));
                }
            } else {
                assert(p[i] != '.');
            }
        }
    }
}

} // verus!
