//! Content negotiation: pick a rendering for a file by its extension.
//!
//! `.html` files pass through verbatim as HTML, `.md` files are rendered
//! to HTML through the `markdown` crate, and everything else is served as
//! plain text equal to the raw content.

use vstd::prelude::*;
use crate::text::{last_pos, last_char_pos, lemma_last_pos_bounds};

verus! {

/// The extension of a path: the characters after the last `.` of the
/// final path segment, provided that `.` is not the segment's first
/// character; `None` otherwise.
pub open spec fn extension_of(s: Seq<char>) -> Option<Seq<char>> {
    let seg = s.subrange(last_pos(s, '/') + 1, s.len() as int);
    if last_pos(seg, '.') > 0 {
        Some(seg.subrange(last_pos(seg, '.') + 1, seg.len() as int))
    } else {
        None
    }
}

/// Extracts a filename's extension, as `extension_of` describes it.
pub fn get_extension_from_filename(filename: &str) -> (r: Option<String>)
    ensures
        r is Some <==> extension_of(filename@) is Some,
        r matches Some(e) ==> extension_of(filename@) == Some(e@),
{
    proof {
        lemma_last_pos_bounds(filename@, '/');
    }
    let len = filename.unicode_len();
    let seg_start: usize = match last_char_pos(filename, '/') {
        Some(p) => p + 1,
        None => 0,
    };
    let seg = filename.substring_char(seg_start, len);
    proof {
        lemma_last_pos_bounds(seg@, '.');
    }
    match last_char_pos(seg, '.') {
        Some(d) => {
            if d > 0 {
                let seg_len = seg.unicode_len();
                Some(seg.substring_char(d + 1, seg_len).to_owned())
            } else {
                None
            }
        },
        None => None,
    }
}

/// What `markdown::to_html` produces for a given input text; the result
/// depends on the input alone.
pub uninterp spec fn html_of_markdown(s: Seq<char>) -> Seq<char>;

/// Relies on `markdown::to_html` of the `markdown` crate: it renders a
/// Markdown text to HTML, deterministically from the text alone, and with
/// the default options it never fails.
pub assume_specification [ markdown::to_html ](value: &str) -> (r: String)
    ensures
        r@ == html_of_markdown(value@),
;

/// Renders a Markdown text to HTML.
pub fn render_markdown(content: &String) -> (r: String)
    ensures
        r@ == html_of_markdown(content@),
{
    markdown::to_html(content.as_str())
}

#[derive(Clone, Copy, Debug, PartialEq, Eq, Structural)]
pub enum RenderKind {
    Html,
    Markdown,
    Plain,
}

/// The rendering a path's extension calls for.
pub open spec fn kind_of(path: Seq<char>) -> RenderKind {
    if extension_of(path) == Some("html"@) {
        RenderKind::Html
    } else if extension_of(path) == Some("md"@) {
        RenderKind::Markdown
    } else {
        RenderKind::Plain
    }
}

#[derive(Clone, Copy, Debug, PartialEq, Eq, Structural)]
pub enum ContentType {
    Html,
    Text,
}

/// Picks the rendering for a path.
pub fn choose_render_kind(path: &str) -> (r: RenderKind)
    ensures
        r == kind_of(path@),
{
    match get_extension_from_filename(path) {
        Some(ext) => {
            if ext == String::from_str("html") {
                RenderKind::Html
            } else if ext == String::from_str("md") {
                RenderKind::Markdown
            } else {
                RenderKind::Plain
            }
        },
        None => RenderKind::Plain,
    }
}

/// Builds the response for an existing file: the content type and body
/// that the path's extension calls for.
pub fn render_file_response(path: &str, content: &String) -> (r: (ContentType, String))
    ensures
        kind_of(path@) is Html ==> r.0 is Html && r.1@ == content@,
        kind_of(path@) is Markdown ==> r.0 is Html && r.1@ == html_of_markdown(content@),
        kind_of(path@) is Plain ==> r.0 is Text && r.1@ == content@,
{
    match choose_render_kind(path) {
        RenderKind::Html => (ContentType::Html, content.clone()),
        RenderKind::Markdown => (ContentType::Html, render_markdown(content)),
        RenderKind::Plain => (ContentType::Text, content.clone()),
    }
}

} // verus!
