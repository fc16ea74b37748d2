use crate::error::Error;
use crate::trusted::{absolutized, expand_user, expands_to, is_absolute, normalized};
use vstd::prelude::*;
use vstd::string::*;

verus! {

/// The absolute form of `path`, in which it is stored and compared. A path
/// that is absolute already comes back [`normalized`]. A leading `~` stands
/// for the home directory and a relative path starts at the current one.
/// Fails where the environment names no home or no current directory.
pub fn resolve(path: &str) -> (resolved: Result<String, Error>)
    ensures
        match resolved {
            Ok(p) => resolves_to(path@, p@),
            Err(e) => e is FileOperation,
        },
{
    resolution(absolutized(path))
}

/// Whether `got` can be the absolute form of `stored`: it is absolute, and
/// where `stored` is absolute already it is `stored` [`normalized`].
pub open spec fn resolves_to(stored: Seq<char>, got: Seq<char>) -> bool {
    is_absolute(got) && (is_absolute(stored) ==> got == normalized(stored))
}

/// What the answer to a question about a path comes to: the path as it was
/// given, or a failed file operation with the message that was given.
pub open spec fn settled(outcome: Result<String, String>, resolved: Result<String, Error>) -> bool {
    match outcome {
        Ok(path) => resolved matches Ok(p) && p@ == path@,
        Err(text) => resolved matches Err(e) && e is FileOperation && e.text() == text@,
    }
}

/// Takes the answer to a question about a path, which is a path or the
/// message of a failure, into a result of this crate. The path is kept as it
/// is, and so is the message.
pub fn resolution(outcome: Result<String, String>) -> (resolved: Result<String, Error>)
    ensures
        settled(outcome, resolved),
{
    match outcome {
        Ok(path) => Ok(path),
        Err(text) => Err(Error::FileOperation(text)),
    }
}

/// The three places of a configuration, as plain text.
pub struct Locations {
    /// The base directory.
    pub dir: Seq<char>,
    /// The trash directory, which holds the moved items by their names.
    pub trash: Seq<char>,
    /// The ledger file.
    pub list: Seq<char>,
}

/// Where the trash and its ledger live. Made once and handed to every
/// operation.
#[derive(Debug)]
pub struct WrmPath {
    dir: String,
    trash: String,
    list: String,
}

impl View for WrmPath {
    type V = Locations;

    closed spec fn view(&self) -> Locations {
        Locations { dir: self.dir@, trash: self.trash@, list: self.list@ }
    }
}

/// The places under the user's home directory, its `~` not yet expanded.
pub open spec fn default_locations() -> Locations {
    Locations {
        dir: "~/.config/wrm"@,
        trash: "~/.config/wrm/trash"@,
        list: "~/.config/wrm/list.json"@,
    }
}

impl Default for WrmPath {
    fn default() -> (wrm_path: Self)
        ensures
            wrm_path@ == default_locations(),
    {
        WrmPath {
            dir: String::from_str("~/.config/wrm"),
            trash: String::from_str("~/.config/wrm/trash"),
            list: String::from_str("~/.config/wrm/list.json"),
        }
    }
}

impl WrmPath {
    /// A configuration of the three given places.
    pub fn new(dir: String, trash: String, list: String) -> (wrm_path: Self)
        ensures
            wrm_path@ == (Locations { dir: dir@, trash: trash@, list: list@ }),
    {
        WrmPath { dir, trash, list }
    }

    /// The base directory.
    pub fn dir(&self) -> (dir: &String)
        ensures
            dir@ == self@.dir,
    {
        &self.dir
    }

    /// The trash directory.
    pub fn trash(&self) -> (trash: &String)
        ensures
            trash@ == self@.trash,
    {
        &self.trash
    }

    /// The ledger file.
    pub fn list(&self) -> (list: &String)
        ensures
            list@ == self@.list,
    {
        &self.list
    }

    /// The same places with a leading `~` of each replaced by the home
    /// directory. Fails where the environment names no home directory; the
    /// places are expanded in the order `dir`, `trash`, `list`, and the first
    /// failure is the one reported, through [`resolution`], with the message
    /// that came with it.
    pub fn expanded(&self) -> (expanded: Result<Self, Error>)
        ensures
            match expanded {
                Ok(wrm_path) => {
                    &&& expands_to(self@.dir, wrm_path@.dir)
                    &&& expands_to(self@.trash, wrm_path@.trash)
                    &&& expands_to(self@.list, wrm_path@.list)
                },
                Err(e) => e is FileOperation,
            },
    {
        let dir = match resolution(expand_user(self.dir.as_str())) {
            Ok(dir) => dir,
            Err(e) => {
                return Err(e);
            },
        };
        let trash = match resolution(expand_user(self.trash.as_str())) {
            Ok(trash) => trash,
            Err(e) => {
                return Err(e);
            },
        };
        let list = match resolution(expand_user(self.list.as_str())) {
            Ok(list) => list,
            Err(e) => {
                return Err(e);
            },
        };
        Ok(WrmPath::new(dir, trash, list))
    }
}

} // verus!
