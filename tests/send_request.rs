use portal::send_request::{
    common_parent_directory, folder_zip_file_name, selection_zip_file_name, CachedSendRequest,
    SendRequest, SendableFile,
};
use std::sync::Arc;

#[test]
fn requests_from_paths() {
    assert!(SendRequest::from_paths(vec![]).is_none());
    let dir = "/".to_owned();
    assert!(matches!(SendRequest::from_paths(vec![dir.clone()]), Some(SendRequest::Folder(p)) if p == dir));
    assert!(matches!(
        SendRequest::from_paths(vec!["/does/not/exist.txt".to_owned()]),
        Some(SendRequest::File(p)) if p == "/does/not/exist.txt"
    ));
    assert!(matches!(
        SendRequest::from_paths(vec!["/a".to_owned(), "/b".to_owned()]),
        Some(SendRequest::Selection(p)) if p == vec!["/a".to_owned(), "/b".to_owned()]
    ));
    assert!(matches!(
        SendRequest::from_classified_paths(vec!["/a".to_owned()], true),
        Some(SendRequest::Folder(_))
    ));
}

#[test]
fn cached_requests_do_not_nest() {
    let file = Arc::new(SendableFile::Path("/x/packed.zip".to_owned()));
    let first = SendRequest::new_cached(file.clone(), SendRequest::Folder("/x/photos".to_owned()));
    let second = SendRequest::new_cached(file, first.clone());
    match second {
        SendRequest::Cached(inner, CachedSendRequest(cached)) => {
            assert!(matches!(*inner, SendRequest::Folder(ref p) if p == "/x/photos"));
            assert_eq!(cached.path(), "/x/packed.zip");
            assert_eq!(cached.file_name(), "packed.zip");
        }
        other => panic!("unexpected {:?}", other),
    }
    assert!(matches!(*SendRequest::File("f".to_owned()).flatten(), SendRequest::File(_)));
}

#[test]
fn archive_names() {
    assert_eq!(folder_zip_file_name("/home/me/photos"), "photos.zip");
    assert_eq!(folder_zip_file_name("/"), "Folder.zip");
    let paths = vec!["/home/me/a.txt".to_owned(), "/home/me/b.txt".to_owned()];
    assert_eq!(common_parent_directory(&paths).as_deref(), Some("/home/me"));
    assert_eq!(selection_zip_file_name(&paths), "me.zip");
    let mixed = vec!["/home/me/a.txt".to_owned(), "/tmp/b.txt".to_owned()];
    assert_eq!(common_parent_directory(&mixed), None);
    assert_eq!(selection_zip_file_name(&mixed), "Selection.zip");
    assert_eq!(selection_zip_file_name(&vec!["a.txt".to_owned(), "b.txt".to_owned()]), "Selection.zip");
    assert_eq!(common_parent_directory(&vec![]), None);
}
