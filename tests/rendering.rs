use cmdwrap::launch::{exit_code, runtime_argv, Failure, Termination};
use cmdwrap::dispatch::LaunchSpec;
use cmdwrap::template::{render, TemplateError};
use cmdwrap::text::{same_text, split_flags};

fn strings(items: &[&str]) -> Vec<String> {
    items.iter().map(|s| s.to_string()).collect()
}

#[test]
fn literal_template_renders_to_itself() {
    assert_eq!(render("--rm -it --net host", "/a", "/b"), Ok("--rm -it --net host".to_string()));
    assert_eq!(render("", "/a", "/b"), Ok(String::new()));
}

#[test]
fn top_and_pwd_render_and_split() {
    let r = render("{top} {pwd}", "/a", "/a/b").unwrap();
    assert_eq!(r, "/a /a/b");
    assert_eq!(split_flags(&r), strings(&["/a", "/a/b"]));
}

#[test]
fn each_variable_gets_its_own_value() {
    assert_eq!(render("{pwd}", "/top", "/work"), Ok("/work".to_string()));
    assert_eq!(render("{top}", "/top", "/work"), Ok("/top".to_string()));
    assert_eq!(render("-v {top}:{top} -w {pwd}", "/t", "/w"), Ok("-v /t:/t -w /w".to_string()));
}

#[test]
fn escaped_braces_are_text() {
    assert_eq!(render("\\{top\\}", "/a", "/b"), Ok("{top}".to_string()));
}

#[test]
fn malformed_templates_fail() {
    assert_eq!(render("{top", "/a", "/b"), Err(TemplateError::Malformed));
    assert_eq!(render("top}", "/a", "/b"), Err(TemplateError::Malformed));
    assert_eq!(render("{}", "/a", "/b"), Err(TemplateError::Malformed));
}

#[test]
fn unknown_placeholder_fails() {
    assert_eq!(render("{home}", "/a", "/b"), Err(TemplateError::UnknownVariable("home".to_string())));
}

#[test]
fn split_keeps_empty_pieces() {
    assert_eq!(split_flags("a  b"), strings(&["a", "", "b"]));
    assert_eq!(split_flags(""), strings(&[""]));
    assert_eq!(split_flags("-v /x y:/z"), strings(&["-v", "/x", "y:/z"]));
}

#[test]
fn texts_compare_by_characters() {
    assert!(same_text("build", "build"));
    assert!(!same_text("build", "buil"));
    assert!(!same_text("build", "bUild"));
    assert!(same_text("", ""));
}

#[test]
fn runtime_arguments_in_order() {
    let spec = LaunchSpec {
        image: "rust:1".to_string(),
        command: "cargo".to_string(),
        runtime_flags: strings(&["-v", "/a:/a"]),
        forwarded: strings(&["build", "--release"]),
    };
    assert_eq!(
        runtime_argv(&spec),
        strings(&["run", "-it", "-v", "/a:/a", "rust:1", "cargo", "build", "--release"])
    );
}

#[test]
fn exit_status_is_propagated() {
    assert_eq!(exit_code(Termination::Exited(3)), 3);
    assert_eq!(exit_code(Termination::Exited(0)), 0);
    assert_eq!(exit_code(Termination::Signaled(9)), 137);
    assert_eq!(exit_code(Termination::Signaled(200)), 255);
}

#[test]
fn failures_have_distinct_codes() {
    let all = [
        Failure::ConfigNotFound,
        Failure::ConfigParse,
        Failure::IdentityResolution,
        Failure::CommandNotFound,
        Failure::TemplateRender,
        Failure::LaunchFailure,
    ];
    let codes: Vec<i32> = all.iter().map(|f| f.exit_code()).collect();
    for (i, a) in codes.iter().enumerate() {
        assert_ne!(*a, 0);
        for b in codes.iter().skip(i + 1) {
            assert_ne!(a, b);
        }
    }
    assert_eq!(Failure::CommandNotFound.exit_code(), 1);
}
