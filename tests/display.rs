use portal::display::{
    connection_text, filename_or_self, request_title, transit_info_message, ConnectionKind,
};
use portal::send_request::{SendRequest, SendableFile};
use portal::workflow::Progress;
use std::sync::Arc;

#[test]
fn connection_texts() {
    assert_eq!(connection_text(&ConnectionKind::Direct), " via direct transfer");
    assert_eq!(connection_text(&ConnectionKind::Relay(None)), " via relay");
    assert_eq!(
        connection_text(&ConnectionKind::Relay(Some("eu".to_owned()))),
        " via relay \"eu\""
    );
    assert_eq!(connection_text(&ConnectionKind::Other), "");
    assert_eq!(
        transit_info_message(&ConnectionKind::Direct, "a.txt"),
        "File \"a.txt\" via direct transfer"
    );
}

#[test]
fn request_titles() {
    assert_eq!(request_title(&SendRequest::File("/home/me/a.txt".to_owned())), "file \"a.txt\"");
    assert_eq!(request_title(&SendRequest::Folder("/home/me/".to_owned())), "folder \"/home/me/\"");
    assert_eq!(request_title(&SendRequest::Selection(vec![])), "selection");
    let cached = SendRequest::new_cached(
        Arc::new(SendableFile::Path("/tmp/x.zip".to_owned())),
        SendRequest::Folder("/home/me/pics".to_owned()),
    );
    assert_eq!(request_title(&cached), "folder \"pics\"");
    assert_eq!(filename_or_self("plain"), "plain");
}

#[test]
fn progress_percent() {
    assert_eq!(Progress::new().percent(), 0);
    assert_eq!(Progress { value: 1, total: 3 }.percent(), 33);
    assert_eq!(Progress { value: u64::MAX, total: u64::MAX }.percent(), 100);
    assert_eq!(Progress { value: 5, total: 4 }.percent(), 100);
}
