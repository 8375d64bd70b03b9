use divine_archive::browse::{home_page, plan_for_target, resolve_fragment, BrowsePlan, TargetKind};
use divine_archive::content::{
    choose_render_kind, get_extension_from_filename, render_file_response, render_markdown,
    ContentType, RenderKind,
};
use divine_archive::edit::{
    check_password, decide_edit, edit_write_response, render_edit_page, EditDecision, EditPayload,
};
use divine_archive::listing::{join_listing, parent_dir, render_dir_entries};
use divine_archive::paths::{resolve_request_path, strip_root_prefix};

fn s(x: &str) -> String {
    x.to_string()
}

#[test]
fn resolve_accepts_relative_fragment() {
    assert_eq!(resolve_request_path("docs/a.md"), Some(s("static/docs/a.md")));
}

#[test]
fn resolve_accepts_empty_fragment() {
    assert_eq!(resolve_request_path(""), Some(s("static/")));
}

#[test]
fn resolve_rejects_dotdot_segments() {
    assert_eq!(resolve_request_path(".."), None);
    assert_eq!(resolve_request_path("../x"), None);
    assert_eq!(resolve_request_path("a/../b"), None);
    assert_eq!(resolve_request_path("a/.."), None);
    assert_eq!(resolve_request_path("a//../b"), None);
}

#[test]
fn resolve_rejects_absolute_paths() {
    assert_eq!(resolve_request_path("/etc/passwd"), None);
}

#[test]
fn resolve_keeps_dotted_names() {
    assert_eq!(resolve_request_path("..notes"), Some(s("static/..notes")));
    assert_eq!(resolve_request_path("a..b/c"), Some(s("static/a..b/c")));
}

#[test]
fn parent_dir_takes_prefix_before_last_slash() {
    assert_eq!(parent_dir("static/docs/a.md"), s("static/docs"));
    assert_eq!(parent_dir("static/docs"), s("static"));
    assert_eq!(parent_dir("static"), s(""));
}

#[test]
fn strip_root_prefix_inverts_resolution() {
    assert_eq!(strip_root_prefix("static/docs/a.md"), s("docs/a.md"));
    assert_eq!(strip_root_prefix("static/"), s(""));
    assert_eq!(strip_root_prefix("static"), s(""));
    assert_eq!(strip_root_prefix("other/x"), s("other/x"));
}

#[test]
fn listing_has_one_line_per_entry_plus_three() {
    let entries = vec![s("static/docs/a.md"), s("static/docs/b.txt")];
    let lines = render_dir_entries("static/docs", &entries);
    assert_eq!(lines.len(), 5);
    assert!(lines[0].contains("Contents"));
    assert_eq!(lines[1], s("<a href=/file/>../</a>"));
    assert_eq!(lines[2], s("<a href=/file/docs/a.md>static/docs/a.md</a>"));
    assert_eq!(lines[3], s("<a href=/file/docs/b.txt>static/docs/b.txt</a>"));
    assert!(lines[4].contains("source code"));
}

#[test]
fn listing_of_nested_directory_links_upward_and_down() {
    let entries = vec![s("static/docs/sub/x.txt")];
    let lines = render_dir_entries("static/docs/sub", &entries);
    assert_eq!(lines.len(), 4);
    assert_eq!(lines[1], s("<a href=/file/docs>../</a>"));
    assert_eq!(lines[2], s("<a href=/file/docs/sub/x.txt>static/docs/sub/x.txt</a>"));
}

#[test]
fn listing_hrefs_resolve_back_to_the_listed_paths() {
    // The fragment each link carries resolves to the path it was made
    // from: child links lead to the entry, the parent link of a nested
    // directory to its parent, and the parent link of a first-level
    // directory to the root.
    assert_eq!(resolve_request_path("docs/a.md"), Some(s("static/docs/a.md")));
    assert_eq!(
        resolve_request_path(&strip_root_prefix("static/docs/sub/x.txt")),
        Some(s("static/docs/sub/x.txt"))
    );
    assert_eq!(resolve_request_path(&strip_root_prefix("static/docs")), Some(s("static/docs")));
    assert_eq!(resolve_request_path(&strip_root_prefix("static")), Some(s("static/")));
}

#[test]
fn listing_of_empty_directory_is_defined() {
    let entries: Vec<String> = Vec::new();
    let lines = render_dir_entries("static/empty", &entries);
    assert_eq!(lines.len(), 3);
    assert!(lines[0].contains("Contents"));
    assert_eq!(lines[1], s("<a href=/file/>../</a>"));
    assert!(lines[2].contains("source code"));
}

#[test]
fn join_appends_a_break_after_each_line() {
    let lines = vec![s("a"), s("b")];
    assert_eq!(join_listing(&lines), s("a\n<br>b\n<br>"));
    let none: Vec<String> = Vec::new();
    assert_eq!(join_listing(&none), s(""));
}

#[test]
fn extension_is_read_from_the_last_segment() {
    assert_eq!(get_extension_from_filename("a.md"), Some(s("md")));
    assert_eq!(get_extension_from_filename("static/docs/a.html"), Some(s("html")));
    assert_eq!(get_extension_from_filename("a.b.c"), Some(s("c")));
    assert_eq!(get_extension_from_filename("noext"), None);
    assert_eq!(get_extension_from_filename(".hidden"), None);
    assert_eq!(get_extension_from_filename("dir.d/file"), None);
    assert_eq!(get_extension_from_filename("trailing."), Some(s("")));
}

#[test]
fn render_kind_follows_the_extension() {
    assert_eq!(choose_render_kind("a.md"), RenderKind::Markdown);
    assert_eq!(choose_render_kind("a.html"), RenderKind::Html);
    assert_eq!(choose_render_kind("a.txt"), RenderKind::Plain);
    assert_eq!(choose_render_kind("noext"), RenderKind::Plain);
    assert_eq!(choose_render_kind("dir.md/file"), RenderKind::Plain);
}

#[test]
fn markdown_is_rendered_not_passed_through() {
    let raw = s("# Hi");
    let html = render_markdown(&raw);
    assert_ne!(html, raw);
    assert!(html.contains("<h1"));
    assert!(html.contains("Hi"));
    let again = render_markdown(&raw);
    assert_eq!(html, again);
}

#[test]
fn markdown_file_is_served_as_rendered_html() {
    let raw = s("# Title\n\nbody text");
    let (ctype, body) = render_file_response("static/notes.md", &raw);
    assert_eq!(ctype, ContentType::Html);
    assert_eq!(body, render_markdown(&raw));
    assert!(body.contains("<h1"));
}

#[test]
fn html_file_passes_through_verbatim() {
    let raw = s("<p>as is &amp; untouched</p>");
    let (ctype, body) = render_file_response("static/page.html", &raw);
    assert_eq!(ctype, ContentType::Html);
    assert_eq!(body, raw);
}

#[test]
fn other_files_are_served_as_plain_text() {
    let raw = s("# looks like markdown but is not rendered");
    let (ctype, body) = render_file_response("static/readme.txt", &raw);
    assert_eq!(ctype, ContentType::Text);
    assert_eq!(body, raw);
}

#[test]
fn password_check_is_plain_equality() {
    assert!(check_password(&s("secret"), &s("secret")));
    assert!(!check_password(&s("secret"), &s("Secret")));
    assert!(!check_password(&s(""), &s("secret")));
}

#[test]
fn edit_with_wrong_password_is_rejected_without_a_write() {
    let payload = EditPayload { content: s("new text"), password: s("bad") };
    let d = decide_edit(Some(payload), Some("f.txt"), &s("right"));
    match d {
        EditDecision::Reject { status, body } => {
            assert_eq!(status, 403);
            assert_eq!(body, s("wrong password maan"));
        }
        EditDecision::Write { .. } => panic!("a wrong password must not reach a write"),
    }
}

#[test]
fn edit_with_correct_password_writes_the_submitted_content() {
    let payload = EditPayload { content: s("new text"), password: s("right") };
    let d = decide_edit(Some(payload), Some("f.txt"), &s("right"));
    match d {
        EditDecision::Write { path, content } => {
            assert_eq!(path, s("static/f.txt"));
            assert_eq!(content, s("new text"));
        }
        EditDecision::Reject { .. } => panic!("a valid edit must reach a write"),
    }
    let (status, body) = edit_write_response(true);
    assert_eq!(status, 200);
    assert_eq!(body, s("Ok"));
}

#[test]
fn edit_with_malformed_body_is_rejected() {
    let d = decide_edit(None, Some("f.txt"), &s("right"));
    assert!(matches!(d, EditDecision::Reject { status: 400, .. }));
}

#[test]
fn edit_without_a_path_is_rejected() {
    let payload = EditPayload { content: s("x"), password: s("right") };
    let d = decide_edit(Some(payload), None, &s("right"));
    assert!(matches!(d, EditDecision::Reject { status: 401, .. }));
}

#[test]
fn edit_cannot_escape_the_public_root() {
    let payload = EditPayload { content: s("x"), password: s("right") };
    let d = decide_edit(Some(payload), Some("../outside.txt"), &s("right"));
    assert!(matches!(d, EditDecision::Reject { status: 403, .. }));
}

#[test]
fn failed_write_reports_a_server_error() {
    let (status, body) = edit_write_response(false);
    assert_eq!(status, 500);
    assert!(body.contains("err"));
}

#[test]
fn missing_target_is_an_error_never_a_body() {
    let plan = plan_for_target(s("static/gone"), TargetKind::Missing);
    match plan {
        BrowsePlan::ShowError { status, body } => {
            assert_eq!(status, 404);
            assert_eq!(body, s("Content not found in path"));
        }
        _ => panic!("a missing path must yield an error"),
    }
    let plan = plan_for_target(s("static/dev"), TargetKind::Other);
    assert!(matches!(plan, BrowsePlan::ShowError { status: 404, .. }));
}

#[test]
fn existing_targets_are_planned_by_kind() {
    let plan = plan_for_target(s("static/docs"), TargetKind::Dir);
    match plan {
        BrowsePlan::ListDir { path } => assert_eq!(path, s("static/docs")),
        _ => panic!("a directory must be listed"),
    }
    let plan = plan_for_target(s("static/a.md"), TargetKind::File);
    match plan {
        BrowsePlan::ServeFile { path } => assert_eq!(path, s("static/a.md")),
        _ => panic!("a file must be served"),
    }
}

#[test]
fn browse_fragment_errors_are_distinguished() {
    match resolve_fragment(None) {
        Err((status, _)) => assert_eq!(status, 400),
        Ok(_) => panic!("a missing fragment must be rejected"),
    }
    match resolve_fragment(Some("../x")) {
        Err((status, _)) => assert_eq!(status, 403),
        Ok(_) => panic!("an escaping fragment must be rejected"),
    }
    assert_eq!(resolve_fragment(Some("docs/a.md")), Ok(s("static/docs/a.md")));
}

#[test]
fn home_page_is_the_placeholder() {
    assert_eq!(home_page(), s("QWE"));
}

#[test]
fn edit_page_carries_path_content_and_template() {
    let page = render_edit_page("static/f.txt", "abc", "<html>form</html>");
    assert_eq!(
        page,
        s("<script>const fpath = \"static/f.txt\"</script>\
           <script>const fcontent = `abc`</script><html>form</html>")
    );
}
