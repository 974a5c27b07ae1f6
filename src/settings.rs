//! The configured commands, and how one is looked up by name.
use vstd::prelude::*;
use crate::paths::{join_path, joined};
use crate::text::{same_text, views};

verus! {

/// One configured alias: the image it runs in, the command run there
/// (its own name where none is given) and the template of the runtime flags.
#[derive(Debug)]
pub struct Cmd {
    pub name: String,
    pub image: String,
    pub command: Option<String>,
    pub docker_args: String,
}

/// The configured aliases, in the order of the configuration file.
#[derive(Debug)]
pub struct Settings {
    pub commands: Vec<Cmd>,
}

/// The command run in the container for `c`: its own command, or else its name.
pub open spec fn effective_command(c: Cmd) -> Seq<char> {
    match c.command {
        Some(s) => s@,
        None => c.name@,
    }
}

/// `i` is the first entry of `cmds` named `name`.
pub open spec fn is_first_named(cmds: Seq<Cmd>, name: Seq<char>, i: int) -> bool {
    &&& 0 <= i < cmds.len()
    &&& cmds[i].name@ == name
    &&& forall|j: int| 0 <= j < i ==> cmds[j].name@ != name
}

/// No entry of `cmds` is named `name`.
pub open spec fn has_no_entry(cmds: Seq<Cmd>, name: Seq<char>) -> bool {
    forall|j: int| 0 <= j < cmds.len() ==> cmds[j].name@ != name
}

/// The path of a link for each command, named as the command, in `dir`.
pub open spec fn link_paths(cmds: Seq<Cmd>, dir: Seq<char>) -> Seq<Seq<char>> {
    cmds.map_values(|c: Cmd| joined(dir, c.name@))
}

impl Cmd {
    pub fn new(name: String, image: String, command: Option<String>, docker_args: String) -> (r: Cmd)
        ensures
            r.name == name,
            r.image == image,
            r.command == command,
            r.docker_args == docker_args,
    {
        Cmd { name, image, command, docker_args }
    }

    /// The command to run in the container.
    pub fn command_to_run(&self) -> (r: String)
        ensures
            r@ == effective_command(*self),
    {
        match &self.command {
            Some(c) => c.clone(),
            None => self.name.clone(),
        }
    }
}

impl Settings {
    /// The entry for `prog_name`. Where several entries share a name, the
    /// first of them in the file is the one that counts.
    pub fn lookup_progam(&self, prog_name: &str) -> (r: Option<&Cmd>)
        ensures
            match r {
                Some(c) => exists|i: int|
                    is_first_named(self.commands@, prog_name@, i) && *c == self.commands@[i],
                None => has_no_entry(self.commands@, prog_name@),
            },
    {
        let mut i: usize = 0;
        while i < self.commands.len()
            invariant
                i <= self.commands@.len(),
                forall|j: int| 0 <= j < i ==> self.commands@[j].name@ != prog_name@,
            decreases self.commands@.len() - i,
        {
            if same_text(self.commands[i].name.as_str(), prog_name) {
                return Some(&self.commands[i]);
            }
            i = i + 1;
        }
        None
    }

    /// The configuration that ships with the program: a shell in a stock
    /// image, with the project's top and the working directory mounted and
    /// the working directory as the container's own.
    pub fn default() -> (r: Settings)
        ensures
            r.commands@.len() == 1,
            r.commands@[0].name@ == "bash"@,
            r.commands@[0].image@ == "ubuntu:latest"@,
            r.commands@[0].command is None,
            r.commands@[0].docker_args@ == "--rm -v {top}:{top} -w {pwd}"@,
    {
        let shell = Cmd::new(
            String::from_str("bash"),
            String::from_str("ubuntu:latest"),
            None,
            String::from_str("--rm -v {top}:{top} -w {pwd}"),
        );
        let mut commands: Vec<Cmd> = Vec::new();
        commands.push(shell);
        Settings { commands }
    }

    /// Where a link for each command goes in `dir`, in the order of the file.
    pub fn symlink_paths(&self, dir: &str) -> (r: Vec<String>)
        ensures
            views(r@) == link_paths(self.commands@, dir@),
    {
        let mut r: Vec<String> = Vec::new();
        let mut i: usize = 0;
        while i < self.commands.len()
            invariant
                i <= self.commands@.len(),
                views(r@) == link_paths(self.commands@.take(i as int), dir@),
            decreases self.commands@.len() - i,
        {
            let p = join_path(dir, self.commands[i].name.as_str());
            proof {
                assert(views(r@.push(p)) =~= views(r@).push(p@));
                assert(link_paths(self.commands@.take(i as int + 1), dir@) =~= link_paths(
                    self.commands@.take(i as int),
                    dir@,
                ).push(p@));
            }
            r.push(p);
            i = i + 1;
        }
        assert(self.commands@.take(self.commands@.len() as int) =~= self.commands@);
        r
    }
}

} // verus!
