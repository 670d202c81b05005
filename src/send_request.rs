//! What the user asked to send, and the single file that goes over the wire for it.
use vstd::prelude::*;

use crate::persist::{file_name_of, last_component};
use crate::text::{before_last, chars_of, find_last, substring};
use std::sync::Arc;

verus! {

/// `tempfile::TempPath`: a temporary file's path that deletes the file when dropped.
#[verifier::external_type_specification]
#[verifier::external_body]
pub struct ExTempPath(tempfile::TempPath);

/// The file that is sent: one the user picked, or an archive packed for a folder or
/// a selection, kept on disk for as long as this value lives.
#[derive(Debug)]
pub enum SendableFile {
    Path(String),
    /// The name shown to the peer, and the archive's temporary path.
    Temporary(String, tempfile::TempPath),
}

/// Relies on `tempfile::TempPath`'s `AsRef<Path>`: the temporary file's path, as text.
#[verifier::external_body]
fn temp_path_text(path: &tempfile::TempPath) -> (r: String) {
    path.to_string_lossy().into_owned()
}

impl SendableFile {
    /// Where the file to send lies.
    pub fn path(&self) -> (r: String)
        ensures
            self matches SendableFile::Path(p) ==> r@ == p@,
    {
        match self {
            SendableFile::Path(path) => path.clone(),
            SendableFile::Temporary(_, file) => temp_path_text(file),
        }
    }

    /// The name under which the file is offered to the peer.
    pub fn file_name(&self) -> (r: String)
        ensures
            self matches SendableFile::Path(p) ==> r@ == last_component(p@),
            self matches SendableFile::Temporary(name, _) ==> r@ == name@,
    {
        match self {
            SendableFile::Path(path) => file_name_of(path.as_str()),
            SendableFile::Temporary(name, _) => name.clone(),
        }
    }
}

/// A file that was packed already, kept so that a retry sends it again.
#[derive(Debug)]
pub struct CachedSendRequest(pub Arc<SendableFile>);

#[derive(Debug)]
pub enum SendRequest {
    File(String),
    Folder(String),
    Selection(Vec<String>),
    /// The request as the user made it, and what was packed for it.
    Cached(Box<SendRequest>, CachedSendRequest),
}

fn copy_request(request: &SendRequest) -> (r: SendRequest)
    decreases request,
{
    match request {
        SendRequest::File(path) => SendRequest::File(path.clone()),
        SendRequest::Folder(path) => SendRequest::Folder(path.clone()),
        SendRequest::Selection(paths) => SendRequest::Selection(paths.clone()),
        SendRequest::Cached(inner, cached) => SendRequest::Cached(
            Box::new(copy_request(inner)),
            CachedSendRequest(cached.0.clone()),
        ),
    }
}

impl Clone for SendRequest {
    fn clone(&self) -> (r: SendRequest) {
        copy_request(self)
    }
}

/// Relies on `std::path::Path::is_dir`: whether a directory stands at `path` now.
#[verifier::external_body]
fn is_directory(path: &str) -> (r: bool) {
    std::path::Path::new(path).is_dir()
}

impl SendRequest {
    /// The request as the user made it, without what was cached for it.
    pub open spec fn original(self) -> SendRequest {
        match self {
            SendRequest::Cached(inner, _) => *inner,
            _ => self,
        }
    }

    pub fn flatten(self) -> (r: Box<SendRequest>)
        ensures
            *r == self.original(),
    {
        match self {
            SendRequest::Cached(inner, _) => inner,
            _ => Box::new(self),
        }
    }

    /// The request that sends `sendable_file` again for `original_request`.
    pub fn new_cached(sendable_file: Arc<SendableFile>, original_request: SendRequest) -> (r:
        SendRequest)
        ensures
            r matches SendRequest::Cached(inner, cached) && *inner == original_request.original()
                && cached.0 == sendable_file,
    {
        SendRequest::Cached(original_request.flatten(), CachedSendRequest(sendable_file))
    }

    /// The request for `paths`, where `first_is_dir` tells whether the first of them
    /// is a directory: nothing for no path, a file or a folder for one, a selection
    /// for more.
    pub fn from_classified_paths(paths: Vec<String>, first_is_dir: bool) -> (r: Option<Self>)
        ensures
            paths.len() == 0 ==> r is None,
            paths.len() == 1 && first_is_dir ==> (r matches Some(SendRequest::Folder(p)) && p@
                == paths[0]@),
            paths.len() == 1 && !first_is_dir ==> (r matches Some(SendRequest::File(p)) && p@
                == paths[0]@),
            paths.len() > 1 ==> r == Some(SendRequest::Selection(paths)),
    {
        let n = paths.len();
        if n == 0 {
            None
        } else if n == 1 {
            let path = paths[0].clone();
            if first_is_dir {
                Some(SendRequest::Folder(path))
            } else {
                Some(SendRequest::File(path))
            }
        } else {
            Some(SendRequest::Selection(paths))
        }
    }

    /// The request for paths picked or dropped by the user; a single path is a folder
    /// or a file by what stands on disk.
    pub fn from_paths(paths: Vec<String>) -> (r: Option<Self>)
        ensures
            paths.len() == 0 ==> r is None,
            paths.len() == 1 ==> (r matches Some(SendRequest::Folder(p)) && p@ == paths[0]@) || (
            r matches Some(SendRequest::File(p)) && p@ == paths[0]@),
            paths.len() > 1 ==> r == Some(SendRequest::Selection(paths)),
    {
        let first_is_dir = if paths.len() == 1 {
            is_directory(paths[0].as_str())
        } else {
            false
        };
        Self::from_classified_paths(paths, first_is_dir)
    }
}

/// The directory part of `path`; empty where it has none.
pub open spec fn parent_of(path: Seq<char>) -> Seq<char> {
    match before_last(path, '/') {
        Some(dir) => dir,
        None => Seq::empty(),
    }
}

pub open spec fn all_share_parent(paths: Seq<String>, parent: Seq<char>) -> bool {
    forall|i: int| 0 <= i < paths.len() ==> parent_of((#[trigger] paths[i])@) == parent
}

fn parent_text(path: &str) -> (r: String)
    ensures
        r@ == parent_of(path@),
{
    let chars = chars_of(path);
    match find_last(&chars, '/') {
        Some(k) => substring(&chars, 0, k),
        None => String::new(),
    }
}

fn same_text(a: &String, b: &String) -> (r: bool)
    ensures
        r == (a@ == b@),
{
    let x = chars_of(a.as_str());
    let y = chars_of(b.as_str());
    if x.len() != y.len() {
        return false;
    }
    let mut i: usize = 0;
    while i < x.len()
        invariant
            x@ == a@,
            y@ == b@,
            x.len() == y.len(),
            i <= x.len(),
            forall|j: int| 0 <= j < i ==> x@[j] == y@[j],
        decreases x.len() - i,
    {
        if x[i] != y[i] {
            return false;
        }
        i = i + 1;
    }
    assert(x@ =~= y@);
    true
}

/// The directory that holds every one of `paths`, if they share one.
pub fn common_parent_directory(paths: &Vec<String>) -> (r: Option<String>)
    ensures
        r matches Some(p) ==> paths.len() > 0 && p@.len() > 0 && all_share_parent(paths@, p@),
        r is None ==> paths.len() == 0 || parent_of(paths[0]@).len() == 0 || !all_share_parent(
            paths@,
            parent_of(paths[0]@),
        ),
{
    if paths.len() == 0 {
        return None;
    }
    let parent = parent_text(paths[0].as_str());
    if parent.as_str().unicode_len() == 0 {
        return None;
    }
    let mut i: usize = 1;
    while i < paths.len()
        invariant
            1 <= i <= paths.len(),
            parent@ == parent_of(paths[0]@),
            forall|j: int| 0 <= j < i ==> parent_of((#[trigger] paths@[j])@) == parent@,
        decreases paths.len() - i,
    {
        let other = parent_text(paths[i].as_str());
        if !same_text(&other, &parent) {
            return None;
        }
        i = i + 1;
    }
    Some(parent)
}

/// `"{name}.zip"`, or `fallback` where `name` is empty.
pub open spec fn zip_name(name: Seq<char>, fallback: Seq<char>) -> Seq<char> {
    if name.len() == 0 {
        fallback
    } else {
        name + seq!['.', 'z', 'i', 'p']
    }
}

fn zip_file_name(dir: &str, fallback: &str) -> (r: String)
    ensures
        r@ == zip_name(last_component(dir@), fallback@),
{
    let chars = chars_of(dir);
    let start = match find_last(&chars, '/') {
        Some(k) => k + 1,
        None => 0,
    };
    assert(chars@.subrange(0, chars@.len() as int) =~= chars@);
    if start == chars.len() {
        return fallback.to_owned();
    }
    let mut name = substring(&chars, start, chars.len());
    name.append(".zip");
    proof {
        reveal_strlit(".zip");
    }
    assert(name@ =~= zip_name(last_component(dir@), fallback@));
    name
}

/// The name under which a packed folder is offered: the folder's name with `.zip`.
pub fn folder_zip_file_name(folder_path: &str) -> (r: String)
    ensures
        r@ == zip_name(last_component(folder_path@), "Folder.zip"@),
{
    zip_file_name(folder_path, "Folder.zip")
}

/// The name under which a packed selection is offered: the name of the directory
/// that holds all of it, with `.zip`.
pub fn selection_zip_file_name(paths: &Vec<String>) -> (r: String)
    ensures
        r@ == match common_parent_directory_spec(paths@) {
            Some(p) => zip_name(last_component(p), "Selection.zip"@),
            None => "Selection.zip"@,
        },
{
    match common_parent_directory(paths) {
        Some(parent) => zip_file_name(parent.as_str(), "Selection.zip"),
        None => "Selection.zip".to_owned(),
    }
}

/// The directory that holds every one of `paths`, if they share one.
pub open spec fn common_parent_directory_spec(paths: Seq<String>) -> Option<Seq<char>> {
    if paths.len() > 0 && parent_of(paths[0]@).len() > 0 && all_share_parent(
        paths,
        parent_of(paths[0]@),
    ) {
        Some(parent_of(paths[0]@))
    } else {
        None
    }
}

} // verus!
