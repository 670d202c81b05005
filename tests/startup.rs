use portal::startup::{zone_identifier_stream, CancelLabel, StartupAction, TransferUri};

fn uri(is_leader: bool, server: Option<&str>) -> TransferUri {
    TransferUri {
        code: "4-hurricane-equipment".to_owned(),
        is_leader,
        rendezvous_server: server.map(str::to_owned),
        text: "wormhole-transfer:4-hurricane-equipment".to_owned(),
    }
}

#[test]
fn startup_actions() {
    assert!(matches!(StartupAction::from_uri(None), StartupAction::Nothing));
    assert!(matches!(
        StartupAction::from_uri(Some(Ok(uri(false, None)))),
        StartupAction::ReceiveFile(a) if a.code == "4-hurricane-equipment"
    ));
    assert!(matches!(
        StartupAction::from_uri(Some(Ok(uri(true, None)))),
        StartupAction::ShowInvalidUriError(m)
            if m == "Unsupported wormhole-transfer URI: wormhole-transfer:4-hurricane-equipment"
    ));
    assert!(matches!(
        StartupAction::from_wormhole_transfer_uri(uri(false, Some("ws://example.org"))),
        StartupAction::ShowInvalidUriError(_)
    ));
    assert!(matches!(
        StartupAction::from_uri(Some(Err("bad link".to_owned()))),
        StartupAction::ShowInvalidUriError(m) if m == "bad link"
    ));
}

#[test]
fn labels_and_markers() {
    assert_eq!(CancelLabel::Cancel.text(), "\u{f573} Cancel");
    assert_eq!(CancelLabel::Back.text(), "\u{f14c} Back");
    assert_eq!(zone_identifier_stream("C:\\a.txt"), "C:\\a.txt:Zone.Identifier");
}
