use portal::archive::{
    check_canceled, needs_large_file, plan_entry, relative_path_for_entry_in_folder, EntryKind,
    PackStep,
};
use portal::error::PortalError;

#[test]
fn entry_names_in_the_archive() {
    assert_eq!(relative_path_for_entry_in_folder("/a/b", None, "/a/b/c/d.txt"), "c/d.txt");
    assert_eq!(relative_path_for_entry_in_folder("/a/b", Some("b"), "/a/b/c/d.txt"), "b/c/d.txt");
    assert_eq!(relative_path_for_entry_in_folder("/a/b", Some("b"), "/a/b"), "b/");
    assert_eq!(relative_path_for_entry_in_folder("/a/b", None, "/a/b"), "");
}

#[test]
fn large_files_from_four_gibibytes() {
    assert!(!needs_large_file(0));
    assert!(!needs_large_file(4_294_967_295));
    assert!(needs_large_file(4_294_967_296));
    assert!(needs_large_file(u64::MAX));
}

#[test]
fn canceled_before_the_first_entry() {
    assert!(matches!(check_canceled(true), Err(PortalError::Canceled)));
    assert!(check_canceled(false).is_ok());
    let step = plan_entry(true, "/a", None, "/a/x", EntryKind::File, 1);
    assert!(matches!(step, Err(PortalError::Canceled)));
}

#[test]
fn canceled_in_the_middle_of_a_walk() {
    let entries = [("/a", EntryKind::Directory), ("/a/x", EntryKind::File), ("/a/y", EntryKind::File)];
    let cancel_after = 2;
    let mut written = Vec::new();
    let mut outcome = Ok(());
    for (i, (path, kind)) in entries.iter().enumerate() {
        match plan_entry(i >= cancel_after, "/a", Some("a"), path, *kind, 5_000_000_000) {
            Ok(PackStep::AddDirectory(name)) => written.push((name, false)),
            Ok(PackStep::AddFile(name, large)) => written.push((name, large)),
            Err(e) => {
                outcome = Err(e);
                break;
            }
        }
    }
    assert!(matches!(outcome, Err(PortalError::Canceled)));
    assert_eq!(written, vec![("a/".to_owned(), false), ("a/x".to_owned(), true)]);
}
