//! The command line given to the container runtime, and the exit code that
//! the program ends with.
use vstd::prelude::*;
use crate::dispatch::LaunchSpec;
use crate::text::views;

verus! {

/// The container runtime's executable.
pub const RUNTIME: &'static str = "docker";

/// Exit code where no entry matches the alias.
pub const EXIT_COMMAND_NOT_FOUND: i32 = 1;
/// Exit code where the configuration file is found nowhere.
pub const EXIT_CONFIG_NOT_FOUND: i32 = 2;
/// Exit code where the configuration file cannot be read or parsed.
pub const EXIT_CONFIG_PARSE: i32 = 3;
/// Exit code where the invoking path cannot be examined.
pub const EXIT_IDENTITY: i32 = 4;
/// Exit code where a template cannot be rendered.
pub const EXIT_TEMPLATE: i32 = 5;
/// Exit code where the container runtime cannot be started.
pub const EXIT_LAUNCH: i32 = 6;
/// Exit code where the launched process was killed by a signal whose number
/// does not fit the usual `128 + signal` scheme.
pub const EXIT_SIGNALED: i32 = 255;

/// The failures that end a run before or instead of a launch.
#[derive(Debug, Clone, Copy, PartialEq, Eq, Structural)]
pub enum Failure {
    ConfigNotFound,
    ConfigParse,
    IdentityResolution,
    CommandNotFound,
    TemplateRender,
    LaunchFailure,
}

/// How the launched process ended.
#[derive(Debug, Clone, Copy, PartialEq, Eq, Structural)]
pub enum Termination {
    /// It exited with this status.
    Exited(i32),
    /// A signal of this number killed it.
    Signaled(i32),
}

pub open spec fn failure_code(f: Failure) -> i32 {
    match f {
        Failure::ConfigNotFound => EXIT_CONFIG_NOT_FOUND,
        Failure::ConfigParse => EXIT_CONFIG_PARSE,
        Failure::IdentityResolution => EXIT_IDENTITY,
        Failure::CommandNotFound => EXIT_COMMAND_NOT_FOUND,
        Failure::TemplateRender => EXIT_TEMPLATE,
        Failure::LaunchFailure => EXIT_LAUNCH,
    }
}

/// The program's exit code after the launched process ended as `t`.
pub open spec fn termination_code(t: Termination) -> i32 {
    match t {
        Termination::Exited(c) => c,
        Termination::Signaled(s) => if 1 <= s <= 127 { (128 + s) as i32 } else { EXIT_SIGNALED },
    }
}

/// The arguments given to the runtime for `s`: run mode, an interactive
/// terminal, the rendered flags, the image, the command, then the
/// forwarded arguments.
pub open spec fn runtime_args(s: LaunchSpec) -> Seq<Seq<char>> {
    seq!["run"@, "-it"@] + views(s.runtime_flags@) + seq![s.image@, s.command@] + views(
        s.forwarded@,
    )
}

impl Failure {
    /// The exit code for this failure; each failure has its own, and none is 0.
    pub fn exit_code(&self) -> (r: i32)
        ensures
            r == failure_code(*self),
            r != 0,
    {
        match self {
            Failure::ConfigNotFound => EXIT_CONFIG_NOT_FOUND,
            Failure::ConfigParse => EXIT_CONFIG_PARSE,
            Failure::IdentityResolution => EXIT_IDENTITY,
            Failure::CommandNotFound => EXIT_COMMAND_NOT_FOUND,
            Failure::TemplateRender => EXIT_TEMPLATE,
            Failure::LaunchFailure => EXIT_LAUNCH,
        }
    }
}

/// The program's exit code once the launched process ended as `t`: its own
/// exit status unchanged, or, after a signal, `128 + signal`, which is never 0.
/// As in a shell, `128 + signal` cannot be told apart from a process that
/// exited with that same status itself.
pub fn exit_code(t: Termination) -> (r: i32)
    ensures
        r == termination_code(t),
        t matches Termination::Exited(c) ==> r == c,
        t is Signaled ==> r != 0,
{
    match t {
        Termination::Exited(c) => c,
        Termination::Signaled(s) => if 1 <= s && s <= 127 {
            128 + s
        } else {
            EXIT_SIGNALED
        },
    }
}

/// The runtime's arguments for `s`, in the order the runtime's command line
/// requires: flags before the image, the image before the command.
pub fn runtime_argv(s: &LaunchSpec) -> (r: Vec<String>)
    ensures
        views(r@) == runtime_args(*s),
{
    let mut r: Vec<String> = Vec::new();
    let run = String::from_str("run");
    let it = String::from_str("-it");
    r.push(run);
    r.push(it);
    assert(views(r@) =~= seq!["run"@, "-it"@]);
    append_all(&mut r, &s.runtime_flags);
    let ghost with_flags = views(r@);
    let image = s.image.clone();
    let command = s.command.clone();
    r.push(image);
    r.push(command);
    assert(views(r@) =~= with_flags + seq![s.image@, s.command@]);
    append_all(&mut r, &s.forwarded);
    assert(views(r@) =~= runtime_args(*s));
    r
}

/// Appends copies of `items` to `v`.
fn append_all(v: &mut Vec<String>, items: &Vec<String>)
    ensures
        views(final(v)@) == views(old(v)@) + views(items@),
{
    let mut i: usize = 0;
    while i < items.len()
        invariant
            i <= items@.len(),
            views(v@) == views(old(v)@) + views(items@).take(i as int),
        decreases items@.len() - i,
    {
        let x = items[i].clone();
        proof {
            assert(views(v@.push(x)) =~= views(v@).push(x@));
            assert(views(items@).take(i as int + 1) =~= views(items@).take(i as int).push(x@));
        }
        v.push(x);
        i = i + 1;
    }
    assert(views(items@).take(items@.len() as int) =~= views(items@));
}

} // verus!
