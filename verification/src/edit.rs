//! The edit gate: password-checked overwriting of a file's content, and
//! the edit form page.
//!
//! `decide_edit` turns a parsed request into a decision: either a
//! rejection with a status code and body, or a write action naming the
//! confined target path and the replacement content. Only a `Write`
//! decision carries anything to write, so every rejected request leaves
//! every file unchanged. The write itself — like all I/O — happens
//! outside the library; the caller reports its outcome to
//! `edit_write_response`.
//!
//! The write goes to the validated, root-confined request path itself,
//! not to any fixed file name.

use vstd::prelude::*;
use crate::paths::{is_safe_fragment, resolved_spec, resolve_request_path};

verus! {

/// A parsed edit submission: the replacement text and the password.
pub struct EditPayload {
    pub content: String,
    pub password: String,
}

/// Compares a submitted password with the configured secret: plain
/// equality of the two strings.
pub fn check_password(given: &String, secret: &String) -> (r: bool)
    ensures
        r == (given@ == secret@),
{
    *given == *secret
}

pub enum EditDecision {
    Reject { status: u16, body: String },
    Write { path: String, content: String },
}

pub open spec fn bad_payload_body() -> Seq<char> {
    "err: invalid request body"@
}

pub open spec fn wrong_password_body() -> Seq<char> {
    "wrong password maan"@
}

pub open spec fn missing_path_body() -> Seq<char> {
    "err: please provide a file path"@
}

pub open spec fn escaping_path_body() -> Seq<char> {
    "err: path escapes the public root"@
}

/// Decides an edit submission. A malformed body is rejected with 400; a
/// wrong password with 403, and then nothing is written; a missing path
/// with 401; a path that would escape the public root with 403. Only
/// when the body parsed, the password matches and the path is safe does
/// the decision carry a write, of exactly the submitted content to the
/// root-confined path.
pub fn decide_edit(payload: Option<EditPayload>, fragment: Option<&str>, secret: &String) -> (r:
    EditDecision)
    ensures
        payload is None ==> (r matches EditDecision::Reject { status, body } && status == 400
            && body@ == bad_payload_body()),
        payload matches Some(p) ==> (p.password@ != secret@ ==> (r
            matches EditDecision::Reject { status, body } && status == 403 && body@
            == wrong_password_body())),
        payload matches Some(p) ==> (p.password@ == secret@ && fragment is None ==> (r
            matches EditDecision::Reject { status, body } && status == 401 && body@
            == missing_path_body())),
        payload matches Some(p) ==> (p.password@ == secret@ ==> (fragment matches Some(f) ==> (
        !is_safe_fragment(f@) ==> (r matches EditDecision::Reject { status, body } && status == 403
            && body@ == escaping_path_body())))),
        payload matches Some(p) ==> (p.password@ == secret@ ==> (fragment matches Some(f) ==> (
        is_safe_fragment(f@) ==> (r matches EditDecision::Write { path, content } && path@
            == resolved_spec(f@) && content@ == p.content@)))),
{
    let payload = match payload {
        None => {
            return EditDecision::Reject {
                status: 400,
                body: String::from_str("err: invalid request body"),
            };
        },
        Some(p) => p,
    };
    if !check_password(&payload.password, secret) {
        return EditDecision::Reject {
            status: 403,
            body: String::from_str("wrong password maan"),
        };
    }
    let frag = match fragment {
        None => {
            return EditDecision::Reject {
                status: 401,
                body: String::from_str("err: please provide a file path"),
            };
        },
        Some(f) => f,
    };
    match resolve_request_path(frag) {
        None => EditDecision::Reject {
            status: 403,
            body: String::from_str("err: path escapes the public root"),
        },
        Some(path) => EditDecision::Write { path, content: payload.content },
    }
}

/// The response once the caller has attempted the write that a `Write`
/// decision asked for: 200 with body `Ok` on success, 500 on a write
/// error.
pub fn edit_write_response(write_ok: bool) -> (r: (u16, String))
    ensures
        write_ok ==> r.0 == 200 && r.1@ == "Ok"@,
        !write_ok ==> r.0 == 500 && r.1@ == "err: could not write the file"@,
{
    if write_ok {
        (200, String::from_str("Ok"))
    } else {
        (500, String::from_str("err: could not write the file"))
    }
}

/// The edit form page: a preamble that carries the target path and its
/// current content, followed by the page template.
pub open spec fn edit_page_text(path: Seq<char>, content: Seq<char>, template: Seq<char>) ->
    Seq<char> {
    "<script>const fpath = \""@ + path + "\"</script><script>const fcontent = `"@ + content
        + "`</script>"@ + template
}

/// Builds the edit form page for a file from its path, its current
/// content and the page template.
pub fn render_edit_page(path: &str, content: &str, template: &str) -> (r: String)
    ensures
        r@ == edit_page_text(path@, content@, template@),
{
    let mut page = String::from_str("<script>const fpath = \"");
    page.append(path);
    page.append("\"</script><script>const fcontent = `");
    page.append(content);
    page.append("`</script>");
    page.append(template);
    page
}

} // verus!
