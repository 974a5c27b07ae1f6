use cmdwrap::dispatch::{
    build_launch_spec, launch_spec_from, plan, resolve_identity, DispatchError, Identity,
    InvocationContext, Plan,
};
use cmdwrap::settings::{Cmd, Settings};
use cmdwrap::template::TemplateError;

fn strings(items: &[&str]) -> Vec<String> {
    items.iter().map(|s| s.to_string()).collect()
}

fn entry(name: &str, image: &str, command: Option<&str>, args: &str) -> Cmd {
    Cmd::new(name.to_string(), image.to_string(), command.map(|c| c.to_string()), args.to_string())
}

fn sample() -> Settings {
    Settings {
        commands: vec![
            entry("build", "rust:1", Some("cargo"), "-v {top}:{top} -w {pwd}"),
            entry("node", "node:20", None, "--rm"),
            entry("build", "other:2", None, "--rm"),
            entry("broken", "x", None, "{home}"),
        ],
    }
}

fn ctx() -> InvocationContext {
    InvocationContext { top: "/a".to_string(), pwd: "/a/b".to_string() }
}

#[test]
fn lookup_takes_first_of_duplicates() {
    let s = sample();
    let c = s.lookup_progam("build").unwrap();
    assert_eq!(c.image, "rust:1");
    assert!(s.lookup_progam("nosuch").is_none());
}

#[test]
fn command_defaults_to_name() {
    let s = sample();
    assert_eq!(s.lookup_progam("node").unwrap().command_to_run(), "node");
    assert_eq!(s.lookup_progam("build").unwrap().command_to_run(), "cargo");
}

#[test]
fn dispatch_uses_entry_and_forwards_args() {
    let s = sample();
    let argv = strings(&["/usr/bin/build", "test", "--release"]);
    let spec = build_launch_spec(&s, "build", &argv, &ctx()).unwrap();
    assert_eq!(spec.image, "rust:1");
    assert_eq!(spec.command, "cargo");
    assert_eq!(spec.runtime_flags, strings(&["-v", "/a:/a", "-w", "/a/b"]));
    assert_eq!(spec.forwarded, strings(&["test", "--release"]));
}

#[test]
fn dispatch_without_command_runs_name() {
    let s = sample();
    let argv = strings(&["node", "x.js"]);
    let spec = build_launch_spec(&s, "node", &argv, &ctx()).unwrap();
    assert_eq!(spec.image, "node:20");
    assert_eq!(spec.command, "node");
    assert_eq!(spec.runtime_flags, strings(&["--rm"]));
    assert_eq!(spec.forwarded, strings(&["x.js"]));
}

#[test]
fn unknown_alias_is_command_not_found() {
    let s = Settings { commands: vec![entry("build", "rust:1", None, "")] };
    let argv = strings(&["nosuch"]);
    match build_launch_spec(&s, "nosuch", &argv, &ctx()) {
        Err(DispatchError::CommandNotFound(n)) => assert_eq!(n, "nosuch"),
        _ => panic!("expected CommandNotFound"),
    }
}

#[test]
fn unknown_variable_is_a_render_error() {
    let s = sample();
    let argv = strings(&["broken"]);
    match build_launch_spec(&s, "broken", &argv, &ctx()) {
        Err(DispatchError::TemplateRender(TemplateError::UnknownVariable(k))) => assert_eq!(k, "home"),
        _ => panic!("expected a render error"),
    }
}

#[test]
fn empty_argv_forwards_nothing() {
    let c = entry("node", "node:20", None, "");
    let spec = launch_spec_from(&c, "", &Vec::new());
    assert!(spec.forwarded.is_empty());
    assert_eq!(spec.runtime_flags, strings(&[""]));
}

#[test]
fn canonical_never_dispatches() {
    let s = sample();
    let argv = strings(&["build", "build"]);
    assert!(matches!(plan(&Identity::Canonical, &s, &argv, &ctx()), Ok(Plan::Administer)));
}

#[test]
fn alias_plans_a_launch() {
    let s = sample();
    let argv = strings(&["build"]);
    match plan(&Identity::Alias("build".to_string()), &s, &argv, &ctx()) {
        Ok(Plan::Launch(spec)) => assert_eq!(spec.image, "rust:1"),
        _ => panic!("expected a launch"),
    }
    assert!(matches!(
        plan(&Identity::Alias("nosuch".to_string()), &s, &argv, &ctx()),
        Err(DispatchError::CommandNotFound(_))
    ));
}

#[test]
fn identity_from_link_name() {
    assert_eq!(resolve_identity("/usr/local/bin/build", false), Some(Identity::Canonical));
    assert_eq!(resolve_identity("/usr/local/bin/build", true), Some(Identity::Alias("build".to_string())));
    assert_eq!(resolve_identity("build", true), Some(Identity::Alias("build".to_string())));
    assert_eq!(resolve_identity("/", true), None);
}

#[test]
fn symlink_paths_per_command() {
    let s = sample();
    assert_eq!(
        s.symlink_paths("/opt/bin"),
        strings(&["/opt/bin/build", "/opt/bin/node", "/opt/bin/build", "/opt/bin/broken"])
    );
}

#[test]
fn builtin_settings() {
    let s = Settings::default();
    assert_eq!(s.commands.len(), 1);
    assert_eq!(s.commands[0].name, "bash");
    assert_eq!(s.commands[0].image, "ubuntu:latest");
}
