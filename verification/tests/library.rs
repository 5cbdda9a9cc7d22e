use specgen::effective_target;
use specgen::engine::{bars, render_template};
use specgen::errors::{Error, ErrorKind};
use specgen::generator::{process_entry, Action};
use specgen::paths::{join_path, relative_to_root, trim_root};

const CTX: &str = "{\"spec\":{\"field\":\"widgets\"},\"info\":{\"title\":\"Pets\"}}";

#[test]
fn upper_helper_renders_uppercase() {
    let r = render_template("{{upper \"abc\"}}", "{}");
    assert_eq!(r, Ok(String::from("ABC")));
}

#[test]
fn lower_helper_renders_lowercase() {
    let r = render_template("{{lower \"ABC\"}}", "{}");
    assert_eq!(r, Ok(String::from("abc")));
}

#[test]
fn helpers_compose_with_fields() {
    let r = render_template("{{upper info.title}}!", CTX);
    assert_eq!(r, Ok(String::from("PETS!")));
}

#[test]
fn field_lookup_renders_value() {
    let r = render_template("{{info.title}}", CTX);
    assert_eq!(r, Ok(String::from("Pets")));
}

#[test]
fn missing_field_is_a_render_error() {
    let r = render_template("{{absent.field}}", CTX);
    assert!(r.is_err());
}

#[test]
fn rendering_is_deterministic() {
    let a = render_template("{{upper info.title}} and {{spec.field}}", CTX);
    let b = render_template("{{upper info.title}} and {{spec.field}}", CTX);
    assert_eq!(a, b);
}

#[test]
fn relative_path_below_root() {
    let r = relative_to_root("tpl/sub/file.txt", "tpl");
    assert_eq!(r, Some(String::from("sub/file.txt")));
}

#[test]
fn relative_path_not_below_root() {
    assert_eq!(relative_to_root("other/file.txt", "tpl"), None);
    assert_eq!(relative_to_root("tpl", "tpl"), None);
    assert_eq!(relative_to_root("tplx/file.txt", "tpl"), None);
}

#[test]
fn join_inserts_separator_only_when_needed() {
    assert_eq!(join_path("out", "a/b"), String::from("out/a/b"));
    assert_eq!(join_path("out/", "a/b"), String::from("out/a/b"));
    assert_eq!(join_path("", "a/b"), String::from("a/b"));
    assert_eq!(join_path("out", "/abs/b"), String::from("/abs/b"));
}

#[test]
fn directory_entry_becomes_directory() {
    let r = process_entry("tpl", "out", "tpl/outer/{{spec.field}}", None, CTX);
    assert_eq!(r.unwrap(), Action::CreateDir { path: String::from("out/outer/widgets") });
}

#[test]
fn nested_file_entry_becomes_file_write() {
    let r = process_entry(
        "tpl",
        "out",
        "tpl/outer/{{spec.field}}/inner.txt",
        Some("hello {{spec.field}}"),
        CTX,
    );
    assert_eq!(
        r.unwrap(),
        Action::WriteFile {
            path: String::from("out/outer/widgets/inner.txt"),
            contents: String::from("hello widgets"),
        }
    );
}

#[test]
fn path_render_failure_names_the_relative_path() {
    let r = process_entry("tpl", "out", "tpl/{{absent.field}}", None, CTX);
    let e = r.unwrap_err();
    assert_eq!(e.kind, ErrorKind::PathRender);
    let msgs = e.messages();
    assert_eq!(msgs.len(), 2);
    assert_eq!(msgs[0], String::from("failed to render template {{absent.field}}"));
}

#[test]
fn content_render_failure_names_the_relative_path() {
    let r = process_entry("tpl", "out", "tpl/a.txt", Some("{{absent.field}}"), CTX);
    let e = r.unwrap_err();
    assert_eq!(e.kind, ErrorKind::ContentRender);
    let msgs = e.messages();
    assert_eq!(msgs.len(), 2);
    assert_eq!(msgs[0], String::from("failed to render contents of a.txt"));
}

#[test]
fn entry_outcome_is_idempotent() {
    let a = process_entry("tpl", "out", "tpl/{{spec.field}}/f.txt", Some("{{info.title}}"), CTX);
    let b = process_entry("tpl", "out", "tpl/{{spec.field}}/f.txt", Some("{{info.title}}"), CTX);
    assert_eq!(a.unwrap(), b.unwrap());
}

#[test]
fn error_chain_walks_outermost_first() {
    let inner = Error::new(ErrorKind::Filesystem, String::from("disk full"));
    let outer = Error::with_cause(
        ErrorKind::Filesystem,
        String::from("failed to create directory out"),
        inner,
    );
    let msgs = outer.messages();
    assert_eq!(
        msgs,
        vec![String::from("failed to create directory out"), String::from("disk full")]
    );
}

#[test]
fn report_lines_mark_causes() {
    let inner = Error::new(ErrorKind::Filesystem, String::from("disk full"));
    let outer = Error::with_cause(
        ErrorKind::Filesystem,
        String::from("failed to create directory out"),
        inner,
    );
    assert_eq!(
        outer.report_lines(),
        vec![
            String::from("error: failed to create directory out"),
            String::from("caused by: disk full"),
        ]
    );
}

#[test]
fn trim_root_strips_trailing_separators() {
    assert_eq!(trim_root("tpl//"), String::from("tpl"));
    assert_eq!(trim_root("tpl"), String::from("tpl"));
    assert_eq!(trim_root("/"), String::from(""));
    assert_eq!(trim_root(""), String::from(""));
}

#[test]
fn bars_builds_the_strict_engine_with_helpers() {
    let hb = bars();
    let data: serde_json::Value = serde_json::from_str("{\"x\":\"hi\"}").unwrap();
    assert_eq!(hb.render_template("{{upper x}}", &data).unwrap(), String::from("HI"));
    assert!(hb.render_template("{{missing.field}}", &data).is_err());
}

#[test]
fn target_defaults_to_current_directory() {
    assert_eq!(effective_target(None), String::from("."));
    assert_eq!(effective_target(Some("build/out")), String::from("build/out"));
}
