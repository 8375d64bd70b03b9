//! Rendering of directory listings.
//!
//! A listing is a fixed header, a parent-directory link derived from the
//! requested directory itself (so an empty directory is handled like any
//! other), one link per child entry, and a fixed footer. The lines are
//! joined with a line break between them.

use vstd::prelude::*;
use crate::paths::{href_fragment_of, strip_root_prefix};
use crate::text::{last_pos, last_char_pos, lemma_last_pos_bounds};

verus! {

pub open spec fn head_text() -> Seq<char> {
    "<h2>Divine archive of Tengri</h2><hr/><h3>Contents</h3>"@
}

pub open spec fn footer_text() -> Seq<char> {
    "<hr><a href=\"https://yusufkaraca.dev\">yusufkaraca.dev   </a><a href=\"https://github.com/xfxpositions/divine-arhive\">source code</a>"@
}

/// The parent of a path: everything before the last `/`, or the empty
/// string when the path holds no `/`.
pub open spec fn parent_of(s: Seq<char>) -> Seq<char> {
    if last_pos(s, '/') >= 0 {
        s.subrange(0, last_pos(s, '/'))
    } else {
        Seq::empty()
    }
}

/// The link line for the parent directory of the listed directory. The
/// href carries the parent's root-relative fragment, so that resolving
/// it leads back to the parent (`paths::lemma_listing_link_round_trip`).
pub open spec fn parent_link_text(dir: Seq<char>) -> Seq<char> {
    "<a href=/file/"@ + href_fragment_of(parent_of(dir)) + ">../</a>"@
}

/// The link line for one child entry: the href carries the entry's
/// root-relative fragment — resolving it leads back to the entry
/// (`paths::lemma_listing_link_round_trip`) — and the visible text is
/// the entry's full path.
pub open spec fn entry_link_text(entry: Seq<char>) -> Seq<char> {
    "<a href=/file/"@ + href_fragment_of(entry) + ">"@ + entry + "</a>"@
}

/// Computes the parent directory of a path.
pub fn parent_dir(path: &str) -> (r: String)
    ensures
        r@ == parent_of(path@),
{
    proof {
        lemma_last_pos_bounds(path@, '/');
    }
    match last_char_pos(path, '/') {
        Some(p) => path.substring_char(0, p).to_owned(),
        None => String::new(),
    }
}

/// Renders the lines of a directory listing: header, parent link, one
/// link per entry, footer. Works for any number of entries, including
/// none.
pub fn render_dir_entries(dir_path: &str, entries: &Vec<String>) -> (r: Vec<String>)
    ensures
        r@.len() == entries@.len() + 3,
        r@[0]@ == head_text(),
        r@[1]@ == parent_link_text(dir_path@),
        forall|i: int| 0 <= i < entries@.len() ==> r@[i + 2]@ == entry_link_text(entries@[i]@),
        r@[r@.len() - 1]@ == footer_text(),
{
    let mut list: Vec<String> = Vec::new();

    list.push(String::from_str("<h2>Divine archive of Tengri</h2><hr/><h3>Contents</h3>"));

    let mut updir = String::from_str("<a href=/file/");
    let parent = parent_dir(dir_path);
    let parent_href = strip_root_prefix(parent.as_str());
    updir.append(parent_href.as_str());
    updir.append(">../</a>");
    list.push(updir);

    let n = entries.len();
    let mut k: usize = 0;
    while k < n
        invariant
            n == entries@.len(),
            k <= n,
            list@.len() == k + 2,
            list@[0]@ == head_text(),
            list@[1]@ == parent_link_text(dir_path@),
            forall|i: int| 0 <= i < k ==> list@[i + 2]@ == entry_link_text(entries@[i]@),
        decreases n - k,
    {
        let entry = &entries[k];
        let entry_href = strip_root_prefix(entry.as_str());
        let mut line = String::from_str("<a href=/file/");
        line.append(entry_href.as_str());
        line.append(">");
        line.append(entry.as_str());
        line.append("</a>");
        list.push(line);
        k += 1;
    }

    list.push(String::from_str(
        "<hr><a href=\"https://yusufkaraca.dev\">yusufkaraca.dev   </a><a href=\"https://github.com/xfxpositions/divine-arhive\">source code</a>",
    ));
    list
}

/// The listing lines joined, each followed by a line break.
pub open spec fn joined(lines: Seq<Seq<char>>) -> Seq<char>
    decreases lines.len(),
{
    if lines.len() == 0 {
        Seq::empty()
    } else {
        joined(lines.drop_last()) + lines.last() + "\n<br>"@
    }
}

/// Joins rendered listing lines into one response body.
pub fn join_listing(lines: &Vec<String>) -> (r: String)
    ensures
        r@ == joined(lines.deep_view()),
{
    let mut out = String::new();
    let n = lines.len();
    let mut k: usize = 0;
    assert(lines.deep_view().subrange(0, 0) =~= Seq::<Seq<char>>::empty());
    while k < n
        invariant
            n == lines@.len(),
            k <= n,
            lines.deep_view().len() == n,
            forall|i: int| 0 <= i < n ==> lines.deep_view()[i] == lines@[i]@,
            out@ == joined(lines.deep_view().subrange(0, k as int)),
        decreases n - k,
    {
        out.append(lines[k].as_str());
        out.append("\n<br>");
        proof {
            let full = lines.deep_view();
            assert(full.subrange(0, k + 1).drop_last() =~= full.subrange(0, k as int));
            assert(full.subrange(0, k + 1).last() == lines@[k as int]@);
        }
        k += 1;
    }
    assert(lines.deep_view().subrange(0, n as int) =~= lines.deep_view());
    out
}

} // verus!
