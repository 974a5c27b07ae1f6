//! Who the program was invoked as, and the launch that an alias asks for.
use vstd::prelude::*;
use crate::paths::{file_name, file_name_of, is_plain_name};
use crate::settings::{effective_command, has_no_entry, is_first_named, Cmd, Settings};
use crate::template::{context_vars, leon_rendering, render, TemplateError};
use crate::text::{split_flags, split_on_space, views};

verus! {

/// How the program was invoked: under its own name, or through a link
/// whose file name is the alias.
#[derive(Debug, PartialEq, Eq)]
pub enum Identity {
    Canonical,
    Alias(String),
}

/// The directories that the templates may name, read once at start.
#[derive(Debug)]
pub struct InvocationContext {
    /// The nearest ancestor that holds the configuration file, or the home directory.
    pub top: String,
    /// The working directory.
    pub pwd: String,
}

/// One launch of the container runtime, fully resolved.
#[derive(Debug)]
pub struct LaunchSpec {
    pub image: String,
    pub command: String,
    pub runtime_flags: Vec<String>,
    pub forwarded: Vec<String>,
}

/// What a run does.
#[derive(Debug)]
pub enum Plan {
    /// Invoked under its own name: the administrative commands.
    Administer,
    /// Invoked through an alias: launch this.
    Launch(LaunchSpec),
}

/// Why an alias could not be launched.
#[derive(Debug, PartialEq, Eq)]
pub enum DispatchError {
    /// No entry has the alias's name.
    CommandNotFound(String),
    /// The entry's template could not be rendered.
    TemplateRender(TemplateError),
}

/// The arguments after the program's own name.
pub open spec fn forwarded_args(argv: Seq<Seq<char>>) -> Seq<Seq<char>> {
    if argv.len() == 0 {
        argv
    } else {
        argv.drop_first()
    }
}

/// `s` launches entry `c` with the flags `rendered` and the arguments of `argv`.
pub open spec fn launches(s: LaunchSpec, c: Cmd, rendered: Seq<char>, argv: Seq<Seq<char>>) -> bool {
    &&& s.image@ == c.image@
    &&& s.command@ == effective_command(c)
    &&& views(s.runtime_flags@) == split_on_space(rendered)
    &&& views(s.forwarded@) == forwarded_args(argv)
}

/// What dispatching under `name` gives: `CommandNotFound` exactly when no
/// entry has that name; otherwise, for the first entry of that name, the
/// launch of it where its template renders, else a render error.
pub open spec fn dispatch_outcome(
    cmds: Seq<Cmd>,
    name: Seq<char>,
    argv: Seq<Seq<char>>,
    top: Seq<char>,
    pwd: Seq<char>,
    r: Result<LaunchSpec, DispatchError>,
) -> bool {
    &&& has_no_entry(cmds, name) <==> (r matches Err(DispatchError::CommandNotFound(_)))
    &&& (r matches Err(DispatchError::CommandNotFound(n)) ==> n@ == name)
    &&& !has_no_entry(cmds, name) ==> exists|i: int| is_first_named(cmds, name, i)
    &&& forall|i: int| #[trigger] is_first_named(cmds, name, i) ==> {
        let c = cmds[i];
        match leon_rendering(c.docker_args@, context_vars(top, pwd)) {
            Some(text) => r is Ok && launches(r->Ok_0, c, text, argv),
            None => r matches Err(DispatchError::TemplateRender(_)),
        }
    }
}

/// The identity of a run whose program path is `argv0`; `is_symlink` tells
/// whether that path is a symbolic link. None where a link's path has no
/// file name.
pub fn resolve_identity(argv0: &str, is_symlink: bool) -> (r: Option<Identity>)
    ensures
        !is_symlink ==> r == Some(Identity::Canonical),
        is_symlink ==> match file_name_of(argv0@) {
            Some(n) => (r matches Some(Identity::Alias(a)) && a@ == n),
            None => r is None,
        },
        is_symlink && is_plain_name(argv0@) ==> (r matches Some(Identity::Alias(a)) && a@ == argv0@),
{
    if !is_symlink {
        return Some(Identity::Canonical);
    }
    match file_name(argv0) {
        Some(n) => Some(Identity::Alias(n)),
        None => None,
    }
}

/// The launch of entry `entry` whose template rendered to `rendered`, with
/// the invocation's arguments `argv` (the program's own name first).
pub fn launch_spec_from(entry: &Cmd, rendered: &str, argv: &Vec<String>) -> (r: LaunchSpec)
    ensures
        launches(r, *entry, rendered@, views(argv@)),
{
    let mut forwarded: Vec<String> = Vec::new();
    if argv.len() > 0 {
        let mut i: usize = 1;
        while i < argv.len()
            invariant
                1 <= i <= argv@.len(),
                views(forwarded@) == views(argv@).subrange(1, i as int),
            decreases argv@.len() - i,
        {
            let a = argv[i].clone();
            proof {
                assert(views(forwarded@.push(a)) =~= views(forwarded@).push(a@));
                assert(views(argv@).subrange(1, i as int + 1) =~= views(argv@).subrange(1, i as int).push(a@));
            }
            forwarded.push(a);
            i = i + 1;
        }
        assert(views(argv@).subrange(1, argv@.len() as int) =~= views(argv@).drop_first());
    } else {
        assert(views(forwarded@) =~= views(argv@));
    }
    LaunchSpec {
        image: entry.image.clone(),
        command: entry.command_to_run(),
        runtime_flags: split_flags(rendered),
        forwarded,
    }
}

/// The launch for the alias `name`: the first entry of that name, its
/// template rendered with `ctx`, and the arguments of `argv` after the first.
pub fn build_launch_spec(settings: &Settings, name: &str, argv: &Vec<String>, ctx: &InvocationContext) -> (r: Result<LaunchSpec, DispatchError>)
    ensures
        dispatch_outcome(settings.commands@, name@, views(argv@), ctx.top@, ctx.pwd@, r),
{
    match settings.lookup_progam(name) {
        None => Err(DispatchError::CommandNotFound(String::from_str(name))),
        Some(entry) => {
            proof { lemma_first_named_unique(settings.commands@, name@); }
            match render(entry.docker_args.as_str(), ctx.top.as_str(), ctx.pwd.as_str()) {
                Ok(text) => Ok(launch_spec_from(entry, text.as_str(), argv)),
                Err(e) => Err(DispatchError::TemplateRender(e)),
            }
        },
    }
}

/// Dispatching under the name of any entry that no earlier entry shares
/// launches that entry: its image, its command (its name where it has none),
/// its rendered flags, and the arguments after the first unchanged and in
/// order. It is never `CommandNotFound`, and fails only where the entry's
/// template does not render.
pub proof fn law_dispatch_launches_entry(
    cmds: Seq<Cmd>,
    i: int,
    argv: Seq<Seq<char>>,
    top: Seq<char>,
    pwd: Seq<char>,
    r: Result<LaunchSpec, DispatchError>,
)
    requires
        0 <= i < cmds.len(),
        forall|j: int| 0 <= j < i ==> cmds[j].name@ != cmds[i].name@,
        dispatch_outcome(cmds, cmds[i].name@, argv, top, pwd, r),
    ensures
        !(r matches Err(DispatchError::CommandNotFound(_))),
        leon_rendering(cmds[i].docker_args@, context_vars(top, pwd)) is Some <==> r is Ok,
        (r matches Ok(s) ==> {
            &&& s.image@ == cmds[i].image@
            &&& s.command@ == effective_command(cmds[i])
            &&& views(s.runtime_flags@) == split_on_space(leon_rendering(cmds[i].docker_args@, context_vars(top, pwd))->Some_0)
            &&& views(s.forwarded@) == forwarded_args(argv)
        }),
{
    assert(is_first_named(cmds, cmds[i].name@, i));
}

proof fn lemma_first_named_unique(cmds: Seq<Cmd>, name: Seq<char>)
    ensures
        forall|i: int, k: int| is_first_named(cmds, name, i) && is_first_named(cmds, name, k) ==> i == k,
{
    assert forall|i: int, k: int| is_first_named(cmds, name, i) && is_first_named(cmds, name, k) implies i == k by {
        if i < k {
            assert(cmds[i].name@ != name);
        } else if k < i {
            assert(cmds[k].name@ != name);
        }
    }
}

/// What a run does: under its own name the administrative commands, whatever
/// the arguments; through an alias the launch of that alias's entry.
pub fn plan(identity: &Identity, settings: &Settings, argv: &Vec<String>, ctx: &InvocationContext) -> (r: Result<Plan, DispatchError>)
    ensures
        *identity == Identity::Canonical ==> r matches Ok(Plan::Administer),
        identity matches Identity::Alias(name) ==> match r {
            Ok(Plan::Launch(s)) => dispatch_outcome(
                settings.commands@,
                name@,
                views(argv@),
                ctx.top@,
                ctx.pwd@,
                Ok(s),
            ),
            Ok(Plan::Administer) => false,
            Err(e) => dispatch_outcome(settings.commands@, name@, views(argv@), ctx.top@, ctx.pwd@, Err(e)),
        },
{
    match identity {
        Identity::Canonical => Ok(Plan::Administer),
        Identity::Alias(name) => match build_launch_spec(settings, name.as_str(), argv, ctx) {
            Ok(s) => Ok(Plan::Launch(s)),
            Err(e) => Err(e),
        },
    }
}

} // verus!
