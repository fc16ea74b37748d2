use wrm::argparse::{argparse, Args, Operation};
use wrm::Error;

fn args(file: Option<Vec<&str>>) -> Args {
    Args {
        file: file.map(|paths| paths.into_iter().map(|p| p.to_string()).collect()),
        clean: false,
        delete: false,
        list: false,
        restore: false,
        noninteractive: false,
        quiet: false,
    }
}

#[test]
fn paths_alone_are_moved_to_the_trash() {
    match argparse(args(Some(vec!["a.txt", "b"]))) {
        Ok(Operation::Remove(paths)) => assert_eq!(paths, vec!["a.txt", "b"]),
        other => panic!("{:?}", other),
    }
}

#[test]
fn delete_and_restore_take_the_paths() {
    let mut a = args(Some(vec!["a.txt"]));
    a.delete = true;
    assert!(matches!(argparse(a), Ok(Operation::Delete(paths)) if paths == vec!["a.txt"]));
    let mut a = args(Some(vec!["a.txt"]));
    a.restore = true;
    assert!(matches!(argparse(a), Ok(Operation::Restore(paths)) if paths == vec!["a.txt"]));
}

#[test]
fn delete_goes_before_restore() {
    let mut a = args(Some(vec!["a.txt"]));
    a.delete = true;
    a.restore = true;
    assert!(matches!(argparse(a), Ok(Operation::Delete(_))));
}

#[test]
fn clean_goes_before_everything() {
    let mut a = args(Some(vec!["a.txt"]));
    a.clean = true;
    a.list = true;
    a.delete = true;
    a.restore = true;
    assert!(matches!(argparse(a), Ok(Operation::Clean)));
    let mut a = args(None);
    a.clean = true;
    assert!(matches!(argparse(a), Ok(Operation::Clean)));
}

#[test]
fn list_goes_before_the_paths() {
    let mut a = args(Some(vec!["a.txt"]));
    a.list = true;
    a.delete = true;
    assert!(matches!(argparse(a), Ok(Operation::List)));
    let mut a = args(None);
    a.list = true;
    assert!(matches!(argparse(a), Ok(Operation::List)));
}

#[test]
fn no_paths_is_an_error_unless_clean_or_list() {
    match argparse(args(None)) {
        Err(Error::Arguments(text)) => assert_eq!(text, "Incorrect arguments"),
        other => panic!("{:?}", other),
    }
    let mut a = args(None);
    a.delete = true;
    a.restore = true;
    a.noninteractive = true;
    a.quiet = true;
    match argparse(a) {
        Err(e) => assert_eq!(e.message(), "Incorrect arguments"),
        other => panic!("{:?}", other),
    }
}

#[test]
fn an_empty_list_of_paths_is_still_a_list_of_paths() {
    assert!(matches!(argparse(args(Some(vec![]))), Ok(Operation::Remove(paths)) if paths.is_empty()));
}

#[test]
fn delete_reconciles_and_nothing_else() {
    assert!(Operation::Delete(vec!["a".to_string()]).reconciles());
    assert!(Operation::Delete(vec![]).reconciles());
    assert!(!Operation::Restore(vec!["a".to_string()]).reconciles());
    assert!(!Operation::Restore(vec![]).reconciles());
    assert!(!Operation::Remove(vec!["a".to_string()]).reconciles());
    assert!(!Operation::Clean.reconciles());
    assert!(!Operation::List.reconciles());
}
