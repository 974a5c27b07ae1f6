use cmdwrap::locate::{
    config_candidates, find_database, first_present, search_dirs, select_top, DatabaseFindError,
};

fn strings(items: &[&str]) -> Vec<String> {
    items.iter().map(|s| s.to_string()).collect()
}

#[test]
fn search_dirs_ascend_to_root() {
    assert_eq!(search_dirs("/a/b"), strings(&["/a/b", "/a", "/"]));
}

#[test]
fn search_dirs_of_root_is_root_alone() {
    assert_eq!(search_dirs("/"), strings(&["/"]));
}

#[test]
fn candidates_in_search_order() {
    let dirs = strings(&["/a/b", "/a", "/"]);
    let got = config_candidates(&dirs, Some("/home/u/.config".to_string()));
    assert_eq!(
        got,
        strings(&[
            "/a/b/cmdwrap.json",
            "/a/cmdwrap.json",
            "/cmdwrap.json",
            "/home/u/.config/cmdwrap/cmdwrap.json",
            "/etc/cmdwrap/cmdwrap.json",
        ])
    );
}

#[test]
fn candidates_without_user_root() {
    let dirs = strings(&["/x"]);
    let got = config_candidates(&dirs, None);
    assert_eq!(got, strings(&["/x/cmdwrap.json", "/etc/cmdwrap/cmdwrap.json"]));
}

#[test]
fn ancestor_file_wins_over_user_file() {
    let dirs = strings(&["/a/b", "/a", "/"]);
    let cands = config_candidates(&dirs, Some("/home/u/.config".to_string()));
    let present = vec![false, true, false, true, true];
    assert_eq!(find_database(&cands, &present), Ok("/a/cmdwrap.json".to_string()));
}

#[test]
fn user_file_wins_over_system_file() {
    let dirs = strings(&["/a"]);
    let cands = config_candidates(&dirs, Some("/cfg".to_string()));
    let present = vec![false, true, true];
    assert_eq!(find_database(&cands, &present), Ok("/cfg/cmdwrap/cmdwrap.json".to_string()));
}

#[test]
fn system_file_is_the_last_resort() {
    let dirs = strings(&["/a"]);
    let cands = config_candidates(&dirs, None);
    let present = vec![false, true];
    assert_eq!(find_database(&cands, &present), Ok("/etc/cmdwrap/cmdwrap.json".to_string()));
}

#[test]
fn nothing_present_is_an_error() {
    let dirs = strings(&["/a", "/"]);
    let cands = config_candidates(&dirs, None);
    let present = vec![false, false, false];
    assert_eq!(find_database(&cands, &present), Err(DatabaseFindError));
    assert_eq!(DatabaseFindError.message(), "Failed to find database");
}

#[test]
fn first_present_stops_at_bound() {
    let present = vec![false, false, true];
    assert_eq!(first_present(&present, 2), None);
    assert_eq!(first_present(&present, 3), Some(2));
}

#[test]
fn top_is_nearest_marked_ancestor() {
    let dirs = strings(&["/a/b/c", "/a/b", "/a", "/"]);
    let present = vec![false, false, true, true, false];
    assert_eq!(select_top(&dirs, &present, Some("/home/u".to_string())), Some("/a".to_string()));
}

#[test]
fn top_falls_back_to_home() {
    let dirs = strings(&["/a", "/"]);
    let present = vec![false, false, true];
    assert_eq!(select_top(&dirs, &present, Some("/home/u".to_string())), Some("/home/u".to_string()));
    assert_eq!(select_top(&dirs, &present, None), None);
}
