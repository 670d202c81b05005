//! The decisions of packing a folder or a selection into one archive.
//!
//! The walk over the file system and the writing of the archive happen outside;
//! before each directory and each entry they ask [`plan_entry`] what to do with it,
//! so that cancellation is seen between entries and never inside one file's copy.
use vstd::prelude::*;

use crate::error::PortalError;
use crate::persist::join;
use crate::text::{chars_of, substring};

verus! {

/// Whether `entry` is `folder` itself or lies below it.
pub open spec fn is_inside(folder: Seq<char>, entry: Seq<char>) -> bool {
    entry == folder || (entry.len() > folder.len() && entry.subrange(0, folder.len() as int)
        == folder && entry[folder.len() as int] == '/')
}

/// The path of `entry` below `folder`; empty for the folder itself.
pub open spec fn below(folder: Seq<char>, entry: Seq<char>) -> Seq<char> {
    if entry.len() > folder.len() {
        entry.subrange(folder.len() + 1int, entry.len() as int)
    } else {
        Seq::empty()
    }
}

/// The name of `entry` in the archive: its path below `folder`, under
/// `folder_relative_path` where the folder itself has a place in the archive.
pub open spec fn archive_name(
    folder: Seq<char>,
    folder_relative_path: Option<Seq<char>>,
    entry: Seq<char>,
) -> Seq<char> {
    match folder_relative_path {
        None => below(folder, entry),
        Some(dir) => join(dir, below(folder, entry)),
    }
}

pub fn relative_path_for_entry_in_folder(
    folder_path: &str,
    folder_relative_path: Option<&str>,
    entry_path: &str,
) -> (r: String)
    requires
        is_inside(folder_path@, entry_path@),
    ensures
        r@ == archive_name(
            folder_path@,
            match folder_relative_path {
                Some(d) => Some(d@),
                None => None,
            },
            entry_path@,
        ),
{
    let entry = chars_of(entry_path);
    let n = folder_path.unicode_len();
    let relative = if entry.len() > n {
        substring(&entry, n + 1, entry.len())
    } else {
        String::new()
    };
    match folder_relative_path {
        None => relative,
        Some(dir) => crate::persist::join_path(dir, relative.as_str()),
    }
}

/// Whether an entry of `size` bytes needs the archive format's large-file flag:
/// from 4 GiB on.
pub fn needs_large_file(size: u64) -> (r: bool)
    ensures
        r == (size >= 0x1_0000_0000),
{
    size > 0xffff_ffff
}

/// What the walk found at an entry; links are followed, so there is nothing else.
#[derive(Clone, Copy, Debug, PartialEq, Eq, Structural)]
pub enum EntryKind {
    Directory,
    File,
}

/// What to write for one entry.
#[derive(Debug)]
pub enum PackStep {
    AddDirectory(String),
    /// The entry's name, and whether it needs the large-file flag.
    AddFile(String, bool),
}

/// Fails once cancellation was asked for: checked before packing starts and before
/// each directory is walked.
pub fn check_canceled(canceled: bool) -> (r: Result<(), PortalError>)
    ensures
        canceled ==> r matches Err(PortalError::Canceled),
        !canceled ==> r is Ok,
{
    if canceled {
        Err(PortalError::Canceled)
    } else {
        Ok(())
    }
}

/// What to do with the entry at `entry_path`, of `kind` and `size` bytes, in the walk
/// of `folder_path`: nothing but a cancellation error once cancellation was asked
/// for, else the entry under its name in the archive.
pub fn plan_entry(
    canceled: bool,
    folder_path: &str,
    folder_relative_path: Option<&str>,
    entry_path: &str,
    kind: EntryKind,
    size: u64,
) -> (r: Result<PackStep, PortalError>)
    requires
        is_inside(folder_path@, entry_path@),
    ensures
        canceled ==> r matches Err(PortalError::Canceled),
        !canceled && kind == EntryKind::Directory ==> (r matches Ok(PackStep::AddDirectory(name))
            && name@ == archive_name(
            folder_path@,
            match folder_relative_path {
                Some(d) => Some(d@),
                None => None,
            },
            entry_path@,
        )),
        !canceled && kind == EntryKind::File ==> (r matches Ok(PackStep::AddFile(name, large))
            && name@ == archive_name(
            folder_path@,
            match folder_relative_path {
                Some(d) => Some(d@),
                None => None,
            },
            entry_path@,
        ) && large == (size >= 0x1_0000_0000)),
{
    if canceled {
        return Err(PortalError::Canceled);
    }
    let name = relative_path_for_entry_in_folder(folder_path, folder_relative_path, entry_path);
    match kind {
        EntryKind::Directory => Ok(PackStep::AddDirectory(name)),
        EntryKind::File => Ok(PackStep::AddFile(name, needs_large_file(size))),
    }
}

} // verus!
