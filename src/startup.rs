//! What the application does first when it is opened with a link.
use vstd::prelude::*;

verus! {

/// A `wormhole-transfer:` link, as its fields.
#[derive(Debug)]
pub struct TransferUri {
    pub code: String,
    /// Whether the link asks this side to lead, which only a sender does.
    pub is_leader: bool,
    pub rendezvous_server: Option<String>,
    /// The link as written.
    pub text: String,
}

#[derive(Debug)]
pub struct ReceiveFileAction {
    pub code: String,
}

#[derive(Debug)]
pub enum StartupAction {
    /// Nothing to do but show the main view.
    Nothing,
    ReceiveFile(ReceiveFileAction),
    ShowInvalidUriError(String),
}

pub const UNSUPPORTED_URI_MESSAGE: &'static str = "Unsupported wormhole-transfer URI: ";

/// The action for a link that was read: receiving, unless the link asks for what is
/// not supported.
pub open spec fn action_for_uri(uri: TransferUri, r: StartupAction) -> bool {
    if !uri.is_leader && uri.rendezvous_server is None {
        r matches StartupAction::ReceiveFile(a) && a.code == uri.code
    } else {
        r matches StartupAction::ShowInvalidUriError(m) && m@ == UNSUPPORTED_URI_MESSAGE@
            + uri.text@
    }
}

impl StartupAction {
    /// Receives the file that the link names, unless the link asks for what is not
    /// supported: leading, or a rendezvous server of its own.
    pub fn from_wormhole_transfer_uri(uri: TransferUri) -> (r: StartupAction)
        ensures
            action_for_uri(uri, r),
    {
        if uri.is_leader || uri.rendezvous_server.is_some() {
            let mut message = UNSUPPORTED_URI_MESSAGE.to_owned();
            message.append(uri.text.as_str());
            StartupAction::ShowInvalidUriError(message)
        } else {
            StartupAction::ReceiveFile(ReceiveFileAction { code: uri.code })
        }
    }

    /// The action for the link given on the command line: none without a link, the
    /// reader's message for a link that could not be read.
    pub fn from_uri(parsed: Option<Result<TransferUri, String>>) -> (r: StartupAction)
        ensures
            parsed is None ==> r is Nothing,
            parsed matches Some(Err(m)) ==> r == StartupAction::ShowInvalidUriError(m),
            parsed matches Some(Ok(uri)) ==> action_for_uri(uri, r),
    {
        match parsed {
            None => StartupAction::Nothing,
            Some(Err(message)) => StartupAction::ShowInvalidUriError(message),
            Some(Ok(uri)) => Self::from_wormhole_transfer_uri(uri),
        }
    }
}

pub const ICON_X: char = '\u{f573}';

pub const ICON_ARROW_LEFT: char = '\u{f14c}';

/// The label of the button that leaves a page.
#[derive(Clone, Copy, Debug, PartialEq, Eq, Structural)]
pub enum CancelLabel {
    Cancel,
    Back,
}

impl CancelLabel {
    /// The label's text, after its icon.
    pub fn text(&self) -> (r: String)
        ensures
            *self == CancelLabel::Cancel ==> r@ == seq![ICON_X] + " Cancel"@,
            *self == CancelLabel::Back ==> r@ == seq![ICON_ARROW_LEFT] + " Back"@,
    {
        let mut r = String::new();
        match self {
            CancelLabel::Cancel => {
                crate::text::push_char(&mut r, ICON_X);
                r.append(" Cancel");
            },
            CancelLabel::Back => {
                crate::text::push_char(&mut r, ICON_ARROW_LEFT);
                r.append(" Back");
            },
        }
        assert(r@ =~= seq![ICON_X] + " Cancel"@ || r@ =~= seq![ICON_ARROW_LEFT] + " Back"@);
        r
    }
}

/// Windows marks a file as coming from the internet with this alternate data
/// stream; zone 3 is the internet zone.
pub const ZONE_IDENTIFIER_CONTENTS: &'static str = "[ZoneTransfer]\r\nZoneId=3";

pub const ZONE_IDENTIFIER_SUFFIX: &'static str = ":Zone.Identifier";

/// The alternate data stream of `path` that marks it as downloaded.
pub fn zone_identifier_stream(path: &str) -> (r: String)
    ensures
        r@ == path@ + ZONE_IDENTIFIER_SUFFIX@,
{
    let mut stream = path.to_owned();
    stream.append(ZONE_IDENTIFIER_SUFFIX);
    stream
}

} // verus!
