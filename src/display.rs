//! The texts that describe a transfer to the user.
use vstd::prelude::*;

use crate::persist::last_component;
use crate::send_request::SendRequest;
use crate::text::{chars_of, find_last, push_char, substring};
use crate::workflow::Progress;

verus! {

/// How the peers ended up connected.
pub enum ConnectionKind {
    Direct,
    /// Through a relay, with its name where it has one.
    Relay(Option<String>),
    /// A kind that this version does not know.
    Other,
}

pub open spec fn quoted(s: Seq<char>) -> Seq<char> {
    seq!['"'] + s + seq!['"']
}

pub open spec fn connection_text_spec(kind: ConnectionKind) -> Seq<char> {
    match kind {
        ConnectionKind::Direct => " via direct transfer"@,
        ConnectionKind::Relay(None) => " via relay"@,
        ConnectionKind::Relay(Some(name)) => " via relay "@ + quoted(name@),
        ConnectionKind::Other => Seq::empty(),
    }
}

fn push_quoted(s: &mut String, text: &str)
    ensures
        final(s)@ == old(s)@ + quoted(text@),
{
    push_char(s, '"');
    s.append(text);
    push_char(s, '"');
    assert(final(s)@ =~= old(s)@ + quoted(text@));
}

/// `" via direct transfer"`, `" via relay"` or `" via relay \"{name}\""`.
pub fn connection_text(kind: &ConnectionKind) -> (r: String)
    ensures
        r@ == connection_text_spec(*kind),
{
    match kind {
        ConnectionKind::Direct => " via direct transfer".to_owned(),
        ConnectionKind::Relay(None) => " via relay".to_owned(),
        ConnectionKind::Relay(Some(name)) => {
            let mut text = " via relay ".to_owned();
            push_quoted(&mut text, name.as_str());
            text
        },
        ConnectionKind::Other => String::new(),
    }
}

/// `File "{filename}"` and how the peers are connected.
pub fn transit_info_message(kind: &ConnectionKind, filename: &str) -> (r: String)
    ensures
        r@ == "File "@ + quoted(filename@) + connection_text_spec(*kind),
{
    let mut message = "File ".to_owned();
    push_quoted(&mut message, filename);
    message.append(connection_text(kind).as_str());
    message
}

/// The file name of `path`, or `path` itself where it has none.
pub open spec fn filename_or_self_spec(path: Seq<char>) -> Seq<char> {
    if last_component(path).len() > 0 {
        last_component(path)
    } else {
        path
    }
}

pub fn filename_or_self(path: &str) -> (r: String)
    ensures
        r@ == filename_or_self_spec(path@),
{
    let chars = chars_of(path);
    let start = match find_last(&chars, '/') {
        Some(k) => k + 1,
        None => 0,
    };
    assert(chars@.subrange(0, chars@.len() as int) =~= chars@);
    if start == chars.len() {
        path.to_owned()
    } else {
        substring(&chars, start, chars.len())
    }
}

/// How a request is named to the user: `file "{name}"`, `folder "{name}"` or
/// `selection`; a cached request by what the user asked for.
pub open spec fn request_title_spec(request: SendRequest) -> Seq<char>
    decreases request,
{
    match request {
        SendRequest::File(path) => "file "@ + quoted(filename_or_self_spec(path@)),
        SendRequest::Folder(path) => "folder "@ + quoted(filename_or_self_spec(path@)),
        SendRequest::Selection(_) => "selection"@,
        SendRequest::Cached(original, _) => request_title_spec(*original),
    }
}

pub fn request_title(request: &SendRequest) -> (r: String)
    ensures
        r@ == request_title_spec(*request),
    decreases request,
{
    match request {
        SendRequest::File(path) => {
            let mut title = "file ".to_owned();
            push_quoted(&mut title, filename_or_self(path.as_str()).as_str());
            title
        },
        SendRequest::Folder(path) => {
            let mut title = "folder ".to_owned();
            push_quoted(&mut title, filename_or_self(path.as_str()).as_str());
            title
        },
        SendRequest::Selection(_) => "selection".to_owned(),
        SendRequest::Cached(original, _) => request_title(original),
    }
}

impl Progress {
    /// How much is done, in whole percent of the total; nothing of nothing.
    pub fn percent(&self) -> (r: u64)
        ensures
            self.total == 0 ==> r == 0,
            self.total > 0 && self.value <= self.total ==> r as int == (self.value as int) * 100 / (self.total as int),
            self.total > 0 && self.value > self.total ==> r == 100,
    {
        if self.total == 0 {
            0
        } else if self.value > self.total {
            100
        } else {
            let r = (self.value as u128) * 100 / (self.total as u128);
            assert(r <= 100) by (nonlinear_arith)
                requires
                    r == (self.value as int) * 100 / (self.total as int),
                    self.value <= self.total,
                    self.total > 0,
            ;
            r as u64
        }
    }
}

} // verus!
