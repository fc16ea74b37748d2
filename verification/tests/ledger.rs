use wrm::file_list::{FileInfo, FileList};
use wrm::path::{resolution, resolve, WrmPath};
use wrm::Error;

fn entry(path: &str, path_trash: &str) -> FileInfo {
    FileInfo::from_paths(path.to_string(), path_trash.to_string())
}

fn pairs(list: &FileList) -> Vec<(String, String)> {
    list.files().iter().map(|f| (f.path(), f.path_trash())).collect()
}

fn pair(path: &str, path_trash: &str) -> (String, String) {
    (path.to_string(), path_trash.to_string())
}

#[test]
fn trash_path_is_trash_dir_slash_file_name() {
    let info = FileInfo::in_trash("/abs/a.txt", "/abs/trash");
    assert_eq!(info.path(), "/abs/a.txt");
    assert_eq!(info.path_trash(), "/abs/trash/a.txt");
}

#[test]
fn trash_path_of_a_directory_ignores_the_trailing_slash() {
    let info = FileInfo::in_trash("/abs/a_dir/", "/abs/trash");
    assert_eq!(info.path(), "/abs/a_dir/");
    assert_eq!(info.path_trash(), "/abs/trash/a_dir");
}

#[test]
fn trash_path_of_a_path_without_file_name_keeps_the_path() {
    let info = FileInfo::in_trash("..", "/abs/trash");
    assert_eq!(info.path_trash(), "/abs/trash/..");
    let root = FileInfo::in_trash("/", "/abs/trash");
    assert_eq!(root.path_trash(), "/abs/trash//");
}

#[test]
fn named_takes_the_name_as_given() {
    let info = FileInfo::named("/abs/a.txt", "/t", Some("b.txt".to_string()));
    assert_eq!(info.path(), "/abs/a.txt");
    assert_eq!(info.path_trash(), "/t/b.txt");
    let bare = FileInfo::named("/abs/a.txt", "/t", None);
    assert_eq!(bare.path_trash(), "/t//abs/a.txt");
}

#[test]
fn new_places_the_item_in_the_default_trash() {
    match FileInfo::new("/abs/a.txt") {
        Ok(info) => {
            assert_eq!(info.path(), "/abs/a.txt");
            let expected = WrmPath::default().expanded().unwrap();
            assert_eq!(info.path_trash(), format!("{}/a.txt", expected.trash()));
            assert!(info.path_trash().ends_with("/.config/wrm/trash/a.txt"));
            assert!(!info.path_trash().starts_with('~'));
        }
        Err(e) => assert!(matches!(e, Error::FileOperation(_))),
    }
}

#[test]
fn from_paths_keeps_both_paths() {
    let info = entry("/abs/a.txt", "/elsewhere/b.txt");
    assert_eq!(info.path(), "/abs/a.txt");
    assert_eq!(info.path_trash(), "/elsewhere/b.txt");
}

#[test]
fn entries_are_equal_when_both_paths_are() {
    assert_eq!(entry("/a", "/t/a"), entry("/a", "/t/a"));
    assert_ne!(entry("/a", "/t/a"), entry("/b", "/t/a"));
    assert_ne!(entry("/a", "/t/a"), entry("/a", "/t/b"));
    assert_eq!(entry("/a", "/t/a").clone(), entry("/a", "/t/a"));
}

#[test]
fn new_ledger_is_empty() {
    let list = FileList::new();
    assert!(list.files().is_empty());
}

#[test]
fn add_appends_in_order() {
    let mut list = FileList::new();
    list.add(&entry("/a", "/t/a"));
    list.add(&entry("/b", "/t/b"));
    assert_eq!(pairs(&list), vec![pair("/a", "/t/a"), pair("/b", "/t/b")]);
}

#[test]
fn add_does_not_deduplicate() {
    let mut list = FileList::new();
    list.add(&entry("/a", "/t/a"));
    let after = list.add(&entry("/a", "/t/a"));
    assert_eq!(after.files().len(), 2);
    assert_eq!(pairs(&list), vec![pair("/a", "/t/a"), pair("/a", "/t/a")]);
}

#[test]
fn remove_drops_every_equal_entry_and_keeps_the_order() {
    let mut list = FileList::new();
    list.add(&entry("/a", "/t/a"));
    list.add(&entry("/b", "/t/b"));
    list.add(&entry("/a", "/t/a"));
    list.add(&entry("/c", "/t/c"));
    let after = list.remove(&entry("/a", "/t/a"));
    assert_eq!(after.files().len(), 2);
    assert_eq!(pairs(&list), vec![pair("/b", "/t/b"), pair("/c", "/t/c")]);
}

#[test]
fn remove_needs_both_paths_to_match() {
    let mut list = FileList::new();
    list.add(&entry("/a", "/t/a"));
    list.remove(&entry("/a", "/t/other"));
    list.remove(&entry("/other", "/t/a"));
    assert_eq!(pairs(&list), vec![pair("/a", "/t/a")]);
}

#[test]
fn remove_of_an_absent_entry_changes_nothing() {
    let mut list = FileList::new();
    list.remove(&entry("/a", "/t/a"));
    assert!(list.files().is_empty());
}

#[test]
fn ledgers_are_equal_when_their_entries_are() {
    let mut one = FileList::new();
    let mut two = FileList::new();
    assert_eq!(one, two);
    one.add(&entry("/a", "/t/a"));
    assert_ne!(one, two);
    two.add(&entry("/a", "/t/a"));
    assert_eq!(one, two);
    one.add(&entry("/b", "/t/b"));
    two.add(&entry("/c", "/t/c"));
    assert_ne!(one, two);
    assert_eq!(one.clone(), one);
}

#[test]
fn default_paths_lie_under_the_home_directory() {
    let wrm_path = WrmPath::default();
    assert_eq!(wrm_path.dir(), "~/.config/wrm");
    assert_eq!(wrm_path.trash(), "~/.config/wrm/trash");
    assert_eq!(wrm_path.list(), "~/.config/wrm/list.json");
}

#[test]
fn new_paths_are_kept_as_given() {
    let wrm_path = WrmPath::new("/d".to_string(), "/d/t".to_string(), "/d/l.json".to_string());
    assert_eq!(wrm_path.dir(), "/d");
    assert_eq!(wrm_path.trash(), "/d/t");
    assert_eq!(wrm_path.list(), "/d/l.json");
}

#[test]
fn expanded_replaces_the_tilde() {
    match WrmPath::default().expanded() {
        Ok(wrm_path) => {
            assert!(!wrm_path.dir().starts_with('~'));
            assert!(wrm_path.dir().ends_with("/.config/wrm"));
            assert!(wrm_path.trash().ends_with("/.config/wrm/trash"));
            assert!(wrm_path.list().ends_with("/.config/wrm/list.json"));
            assert_eq!(*wrm_path.trash(), format!("{}/trash", wrm_path.dir()));
            assert_eq!(*wrm_path.list(), format!("{}/list.json", wrm_path.dir()));
        }
        Err(e) => assert!(matches!(e, Error::FileOperation(_))),
    }
}

#[test]
fn expanded_keeps_paths_without_tilde() {
    let plain = WrmPath::new("/d".to_string(), "/d/~t".to_string(), "l.json".to_string());
    match plain.expanded() {
        Ok(wrm_path) => {
            assert_eq!(wrm_path.dir(), "/d");
            assert_eq!(wrm_path.trash(), "/d/~t");
            assert_eq!(wrm_path.list(), "l.json");
        }
        Err(e) => assert!(matches!(e, Error::FileOperation(_))),
    }
}

#[test]
fn error_message_is_its_text() {
    assert_eq!(Error::Storage("no ledger".to_string()).message(), "no ledger");
    assert_eq!(Error::FileOperation("denied".to_string()).message(), "denied");
    assert_eq!(Error::Arguments("nothing".to_string()).message(), "nothing");
}

#[test]
fn resolve_keeps_an_absolute_path() {
    match resolve("/abs/a.txt") {
        Ok(path) => assert_eq!(path, "/abs/a.txt"),
        Err(e) => assert!(matches!(e, Error::FileOperation(_))),
    }
}

#[test]
fn resolve_takes_the_dots_out() {
    match resolve("/abs/./b/../a.txt") {
        Ok(path) => assert_eq!(path, "/abs/a.txt"),
        Err(e) => assert!(matches!(e, Error::FileOperation(_))),
    }
}

#[test]
fn resolve_makes_a_relative_path_absolute() {
    match resolve("test/a.txt") {
        Ok(path) => {
            assert!(path.starts_with('/'));
            assert!(path.ends_with("/test/a.txt"));
        }
        Err(e) => assert!(matches!(e, Error::FileOperation(_))),
    }
}

#[test]
fn resolve_expands_the_tilde() {
    match (resolve("~/.config/wrm/trash/a.txt"), WrmPath::default().expanded()) {
        (Ok(path), Ok(wrm_path)) => {
            assert!(!path.starts_with('~'));
            assert!(path.ends_with("/.config/wrm/trash/a.txt"));
            let trash = resolve(wrm_path.trash()).unwrap();
            assert_eq!(path, format!("{}/a.txt", trash));
        }
        (Err(e), _) => assert!(matches!(e, Error::FileOperation(_))),
        (_, Err(e)) => assert!(matches!(e, Error::FileOperation(_))),
    }
}

#[test]
fn resolved_ledger_keeps_resolved_paths() {
    let mut list = FileList::new();
    list.add(&entry("/abs/a.txt", "/abs/trash/a.txt"));
    list.add(&entry("/abs/b", "/abs/trash/b"));
    match list.resolved() {
        Ok(resolved) => assert_eq!(resolved, list),
        Err(e) => assert!(matches!(e, Error::FileOperation(_))),
    }
}

#[test]
fn resolved_ledger_resolves_both_paths_of_each_entry() {
    let mut list = FileList::new();
    list.add(&entry("/abs/x/../a.txt", "/abs/trash/./a.txt"));
    list.add(&entry("/abs/b/.", "/abs//trash/b"));
    match list.resolved() {
        Ok(resolved) => assert_eq!(
            pairs(&resolved),
            vec![pair("/abs/a.txt", "/abs/trash/a.txt"), pair("/abs/b", "/abs/trash/b")]
        ),
        Err(e) => assert!(matches!(e, Error::FileOperation(_))),
    }
    match FileList::new().resolved() {
        Ok(resolved) => assert!(resolved.files().is_empty()),
        Err(e) => panic!("{:?}", e),
    }
}

#[test]
fn resolve_gives_an_absolute_path() {
    for path in ["", ".", "..", "a", "a/../..", "./a/b/", "~", "~/a", "/", "/a/..", "//a"] {
        match resolve(path) {
            Ok(resolved) => assert!(resolved.starts_with('/'), "{:?} gave {:?}", path, resolved),
            Err(e) => assert!(matches!(e, Error::FileOperation(_))),
        }
    }
}

#[test]
fn resolve_of_an_absolute_path_is_the_same_each_time() {
    for path in ["/abs/a.txt", "/abs/./b/../a.txt", "/abs//a/", "/..", "/~/a"] {
        match (resolve(path), resolve(path)) {
            (Ok(first), Ok(second)) => assert_eq!(first, second),
            (Err(e), _) => assert!(matches!(e, Error::FileOperation(_))),
            (_, Err(e)) => assert!(matches!(e, Error::FileOperation(_))),
        }
    }
    match (resolve("/abs//a/"), resolve("/..")) {
        (Ok(first), Ok(second)) => {
            assert_eq!(first, "/abs/a");
            assert_eq!(second, "/");
        }
        (Err(e), _) => assert!(matches!(e, Error::FileOperation(_))),
        (_, Err(e)) => assert!(matches!(e, Error::FileOperation(_))),
    }
}

#[test]
fn resolution_keeps_the_path() {
    match resolution(Ok("/abs/a.txt".to_string())) {
        Ok(path) => assert_eq!(path, "/abs/a.txt"),
        Err(e) => panic!("{:?}", e),
    }
    match resolution(Ok(String::new())) {
        Ok(path) => assert_eq!(path, ""),
        Err(e) => panic!("{:?}", e),
    }
}

#[test]
fn resolution_of_a_failure_is_a_failed_file_operation() {
    match resolution(Err("environment variable not found".to_string())) {
        Err(Error::FileOperation(text)) => assert_eq!(text, "environment variable not found"),
        other => panic!("{:?}", other),
    }
}

#[test]
fn resolved_ledger_of_an_empty_ledger_is_empty() {
    let resolved = FileList::new().resolved().unwrap();
    assert!(resolved.files().is_empty());
}

#[test]
fn resolved_ledger_holds_absolute_paths_in_the_same_order() {
    let mut list = FileList::new();
    list.add(&entry("a.txt", "trash/a.txt"));
    list.add(&entry("/abs/b/../c", "~/trash/c"));
    list.add(&entry("/abs/d", "/abs/trash/d"));
    match list.resolved() {
        Ok(resolved) => {
            let got = pairs(&resolved);
            assert_eq!(got.len(), 3);
            for (path, path_trash) in &got {
                assert!(path.starts_with('/'));
                assert!(path_trash.starts_with('/'));
            }
            assert!(got[0].0.ends_with("/a.txt"));
            assert!(got[0].1.ends_with("/trash/a.txt"));
            assert_eq!(got[1].0, "/abs/c");
            assert!(got[1].1.ends_with("/trash/c"));
            assert_eq!(got[1].0, resolve("/abs/b/../c").unwrap());
            assert_eq!(got[2], pair("/abs/d", "/abs/trash/d"));
        }
        Err(e) => assert!(matches!(e, Error::FileOperation(_))),
    }
}
