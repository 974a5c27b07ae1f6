//! Where the configuration file is looked for, and which directory is the
//! project's top.
use vstd::prelude::*;
use crate::paths::{
    ancestor_dirs, ancestors_of, join_path, joined, opt_view, user_config_dir, user_home_dir,
};
use crate::text::views;

verus! {

/// The configuration file's name, and the marker of a project's top.
pub const DBNAME: &'static str = "cmdwrap.json";

/// The program's name, under which per-user and system files are kept.
pub const PROGNAME: &'static str = "cmdwrap";

/// The system-wide configuration directory's parent.
pub const SYSTEM_ROOT: &'static str = "/etc/";

/// The configuration file could be found at none of the places searched.
#[derive(Debug, Clone, Copy, PartialEq, Eq, Structural)]
pub struct DatabaseFindError;

impl DatabaseFindError {
    /// The text that reports this error.
    pub fn message(&self) -> (r: String)
        ensures
            r@ == "Failed to find database"@,
    {
        String::from_str("Failed to find database")
    }
}

/// The marker file's path in each of `dirs`.
pub open spec fn marker_files(dirs: Seq<Seq<char>>) -> Seq<Seq<char>> {
    dirs.map_values(|d: Seq<char>| joined(d, DBNAME@))
}

/// `<root>/<program>/<file>`.
pub open spec fn program_file(root: Seq<char>) -> Seq<char> {
    joined(joined(root, PROGNAME@), DBNAME@)
}

/// Every place where the configuration file is looked for, in order: each of
/// `dirs` (the working directory and its ancestors), then the per-user
/// configuration root where there is one, then the system-wide location.
pub open spec fn candidate_list(dirs: Seq<Seq<char>>, user_root: Option<Seq<char>>) -> Seq<Seq<char>> {
    let user = match user_root {
        Some(r) => seq![program_file(r)],
        None => Seq::empty(),
    };
    marker_files(dirs) + user + seq![program_file(SYSTEM_ROOT@)]
}

/// `i` is the first position at which `present` holds.
pub open spec fn is_first_present(present: Seq<bool>, i: int) -> bool {
    &&& 0 <= i < present.len()
    &&& present[i]
    &&& forall|j: int| 0 <= j < i ==> !present[j]
}

/// The first position before `n` at which `present` holds.
pub fn first_present(present: &Vec<bool>, n: usize) -> (r: Option<usize>)
    requires
        n <= present@.len(),
    ensures
        match r {
            Some(i) => i < n && is_first_present(present@, i as int),
            None => forall|j: int| 0 <= j < n ==> !present@[j],
        },
{
    let mut i: usize = 0;
    while i < n
        invariant
            n <= present@.len(),
            i <= n,
            forall|j: int| 0 <= j < i ==> !present@[j],
        decreases n - i,
    {
        if present[i] {
            return Some(i);
        }
        i = i + 1;
    }
    None
}

/// A configuration file in the working directory or one of its ancestors is
/// chosen over the per-user and the system-wide file: whenever an ancestor
/// holds one, the first place present in search order is an ancestor's
/// marker file, no farther up than that ancestor, whatever else is present.
pub proof fn law_ancestor_file_wins(
    dirs: Seq<Seq<char>>,
    user_root: Option<Seq<char>>,
    present: Seq<bool>,
    k: int,
)
    requires
        present.len() == candidate_list(dirs, user_root).len(),
        0 <= k < dirs.len(),
        present[k],
    ensures
        forall|i: int|
            is_first_present(present, i) ==> i <= k && candidate_list(dirs, user_root)[i] == joined(
                dirs[i],
                DBNAME@,
            ),
{
    assert forall|i: int| is_first_present(present, i) implies i <= k
        && candidate_list(dirs, user_root)[i] == joined(dirs[i], DBNAME@) by {
        if i > k {
            assert(!present[k]);
        }
    }
}

/// The working directory `cwd` and each of its ancestors, nearest first.
pub fn search_dirs(cwd: &str) -> (r: Vec<String>)
    ensures
        views(r@) == ancestors_of(cwd@),
        r@.len() >= 1,
        r@[0]@ == cwd@,
{
    ancestor_dirs(cwd)
}

/// The places where the configuration file is looked for, in search order,
/// given the directories to ascend through and the per-user root.
pub fn config_candidates(dirs: &Vec<String>, user_root: Option<String>) -> (r: Vec<String>)
    ensures
        views(r@) == candidate_list(views(dirs@), opt_view(user_root)),
{
    let mut r: Vec<String> = Vec::new();
    let mut i: usize = 0;
    while i < dirs.len()
        invariant
            i <= dirs@.len(),
            views(r@) == marker_files(views(dirs@).take(i as int)),
        decreases dirs@.len() - i,
    {
        let f = join_path(dirs[i].as_str(), DBNAME);
        proof {
            assert(views(r@.push(f)) =~= views(r@).push(f@));
            assert(marker_files(views(dirs@).take(i as int + 1)) =~= marker_files(views(dirs@).take(i as int)).push(f@));
        }
        r.push(f);
        i = i + 1;
    }
    proof {
        assert(views(dirs@).take(dirs@.len() as int) =~= views(dirs@));
    }
    let ghost before = views(r@);
    match user_root {
        Some(root) => {
            let d = join_path(root.as_str(), PROGNAME);
            let f = join_path(d.as_str(), DBNAME);
            proof {
                assert(views(r@.push(f)) =~= views(r@).push(f@));
            }
            r.push(f);
        },
        None => {},
    }
    let d = join_path(SYSTEM_ROOT, PROGNAME);
    let f = join_path(d.as_str(), DBNAME);
    proof {
        assert(views(r@.push(f)) =~= views(r@).push(f@));
    }
    r.push(f);
    assert(views(r@) =~= candidate_list(views(dirs@), opt_view(user_root)));
    r
}

/// The places searched from the directories `dirs`, with the per-user root
/// that the platform gives, whatever it is.
pub fn discovery_candidates(dirs: &Vec<String>) -> (r: Vec<String>)
    ensures
        exists|root: Option<Seq<char>>| views(r@) == candidate_list(views(dirs@), root),
{
    let root = user_config_dir();
    config_candidates(dirs, root)
}

/// The configuration file to load: the first of `candidates` that is
/// present, where `present[i]` tells whether `candidates[i]` exists. Where
/// the file found is in the working directory or an ancestor, the result is
/// the path of the file itself, not of the directory that holds it, so that
/// it can be loaded as it is.
pub fn find_database(candidates: &Vec<String>, present: &Vec<bool>) -> (r: Result<String, DatabaseFindError>)
    requires
        present@.len() == candidates@.len(),
    ensures
        match r {
            Ok(p) => exists|i: int| is_first_present(present@, i) && p@ == candidates@[i]@,
            Err(_) => forall|i: int| 0 <= i < present@.len() ==> !present@[i],
        },
{
    match first_present(present, present.len()) {
        Some(i) => Ok(candidates[i].clone()),
        None => Err(DatabaseFindError),
    }
}

/// The project's top: the nearest of `dirs` that holds the marker file
/// (`present[i]` for `dirs[i]`), or else `home`.
pub fn select_top(dirs: &Vec<String>, present: &Vec<bool>, home: Option<String>) -> (r: Option<String>)
    requires
        dirs@.len() <= present@.len(),
    ensures
        forall|i: int|
            #![trigger is_first_present(present@, i)]
            i < dirs@.len() && is_first_present(present@, i) ==> r is Some && r->Some_0@ == dirs@[i]@,
        (forall|j: int| 0 <= j < dirs@.len() ==> !present@[j]) ==> r == home,
{
    match first_present(present, dirs.len()) {
        Some(i) => Some(dirs[i].clone()),
        None => home,
    }
}

/// The project's top as `select_top` chooses it, with the home directory
/// that the environment gives as the fallback.
pub fn find_top(dirs: &Vec<String>, present: &Vec<bool>) -> (r: Option<String>)
    requires
        dirs@.len() <= present@.len(),
    ensures
        forall|i: int|
            #![trigger is_first_present(present@, i)]
            i < dirs@.len() && is_first_present(present@, i) ==> r is Some && r->Some_0@ == dirs@[i]@,
{
    let home = user_home_dir();
    select_top(dirs, present, home)
}

} // verus!
