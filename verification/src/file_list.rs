use crate::error::Error;
use crate::path::{default_locations, resolve, resolves_to, WrmPath};
use crate::trusted::{expands_to, file_name, file_name_of};
use vstd::prelude::*;
use vstd::std_specs::cmp::PartialEqSpecImpl;
use vstd::string::*;

verus! {

/// One record of the ledger: where a trashed item lived, and where it lies
/// now. Two records are the same when both paths are.
pub struct Entry {
    /// The absolute path of the item before it was trashed.
    pub path: Seq<char>,
    /// The absolute path of the item inside the trash directory.
    pub path_trash: Seq<char>,
}

/// The name under which `path` is kept in the trash: its final component,
/// or the whole path where it has none.
pub open spec fn base_name(path: Seq<char>) -> Seq<char> {
    match file_name_of(path) {
        Some(name) => name,
        None => path,
    }
}

/// Where an item that is called `name` lies in the trash directory `trash`.
pub open spec fn placed(trash: Seq<char>, name: Seq<char>) -> Seq<char> {
    trash + seq!['/'] + name
}

/// The record of the item at `path` once it is moved to the trash directory
/// `trash`. The trash path is not chosen: it follows from the two.
pub open spec fn entry_of(trash: Seq<char>, path: Seq<char>) -> Entry {
    Entry { path, path_trash: placed(trash, base_name(path)) }
}

/// The records of a sequence of items, in the same order.
pub open spec fn entries(files: Seq<FileInfo>) -> Seq<Entry> {
    files.map_values(|f: FileInfo| f@)
}

/// Whether every record of `ledger` lies where the trash directory `trash`
/// puts the item of its original path.
pub open spec fn derived(ledger: Seq<Entry>, trash: Seq<char>) -> bool {
    forall|i: int| 0 <= i < ledger.len() ==> #[trigger] ledger[i] == entry_of(trash, ledger[i].path)
}

/// Whether `resolved` can be `stored` with both paths of every record
/// resolved: the records are as many, and each path of `resolved` can be the
/// absolute form of the stored path in its place.
pub open spec fn resolved_from(stored: Seq<Entry>, resolved: Seq<Entry>) -> bool {
    &&& resolved.len() == stored.len()
    &&& forall|k: int|
        0 <= k < stored.len() ==> resolves_to(stored[k].path, (#[trigger] resolved[k]).path)
            && resolves_to(stored[k].path_trash, resolved[k].path_trash)
}

/// Whether no two records of `ledger` share a trash path.
pub open spec fn distinct_trash_paths(ledger: Seq<Entry>) -> bool {
    forall|i: int, j: int|
        0 <= i < j < ledger.len() ==> (#[trigger] ledger[i]).path_trash != (
        #[trigger] ledger[j]).path_trash
}

/// Whether a record differs from `entry`.
pub open spec fn other_than(entry: Entry) -> spec_fn(Entry) -> bool {
    |e: Entry| e != entry
}

/// `ledger` without the records that are the same as `entry`.
pub open spec fn without(ledger: Seq<Entry>, entry: Entry) -> Seq<Entry> {
    ledger.filter(other_than(entry))
}

/// The records of a longer sequence of items are those of the shorter one,
/// then that of the item added.
proof fn lemma_entries_push(files: Seq<FileInfo>, file: FileInfo)
    ensures
        entries(files.push(file)) == entries(files).push(file@),
{
    assert(entries(files.push(file)) =~= entries(files).push(file@));
}

/// One trashed item.
#[derive(Debug)]
pub struct FileInfo {
    path: String,
    path_trash: String,
}

impl View for FileInfo {
    type V = Entry;

    closed spec fn view(&self) -> Entry {
        Entry { path: self.path@, path_trash: self.path_trash@ }
    }
}

impl Clone for FileInfo {
    fn clone(&self) -> (copy: Self)
        ensures
            copy@ == self@,
    {
        FileInfo { path: self.path.clone(), path_trash: self.path_trash.clone() }
    }
}

impl PartialEq for FileInfo {
    fn eq(&self, other: &Self) -> (same: bool) {
        self.path == other.path && self.path_trash == other.path_trash
    }
}

impl PartialEqSpecImpl for FileInfo {
    open spec fn obeys_eq_spec() -> bool {
        true
    }

    open spec fn eq_spec(&self, other: &Self) -> bool {
        self@ == other@
    }
}

impl FileInfo {
    /// The record of `path` in the trash directory of the default
    /// configuration, expanded for the current user. Fails where that
    /// configuration cannot be expanded.
    pub fn new(path: &str) -> (made: Result<Self, Error>)
        ensures
            match made {
                Ok(info) => exists|trash: Seq<char>|
                    expands_to(default_locations().trash, trash) && info@
                        == #[trigger] entry_of(trash, path@),
                Err(e) => e is FileOperation,
            },
    {
        match WrmPath::default().expanded() {
            Ok(wrm_path) => {
                let info = FileInfo::in_trash(path, wrm_path.trash().as_str());
                assert(info@ == entry_of(wrm_path@.trash, path@));
                Ok(info)
            },
            Err(e) => Err(e),
        }
    }

    /// The record of `path` in the trash directory `trash`.
    pub fn in_trash(path: &str, trash: &str) -> (info: Self)
        ensures
            info@ == entry_of(trash@, path@),
    {
        FileInfo::named(path, trash, file_name(path))
    }

    /// The record of `path` in the trash directory `trash`, where `name` is
    /// the final component of `path`, if it has one.
    pub fn named(path: &str, trash: &str, name: Option<String>) -> (info: Self)
        ensures
            info@.path == path@,
            info@.path_trash == placed(
                trash@,
                match name {
                    Some(n) => n@,
                    None => path@,
                },
            ),
    {
        let mut path_trash = String::from_str(trash);
        path_trash.append("/");
        match name {
            Some(n) => path_trash.append(n.as_str()),
            None => path_trash.append(path),
        }
        proof {
            reveal_strlit("/");
            assert("/"@ =~= seq!['/']);
        }
        FileInfo { path: String::from_str(path), path_trash }
    }

    /// A record as it was stored: both paths are taken as they are.
    pub fn from_paths(path: String, path_trash: String) -> (info: Self)
        ensures
            info@ == (Entry { path: path@, path_trash: path_trash@ }),
    {
        FileInfo { path, path_trash }
    }

    /// The path of the item before it was trashed.
    pub fn path(&self) -> (path: String)
        ensures
            path@ == self@.path,
    {
        self.path.clone()
    }

    /// The path of the item inside the trash directory.
    pub fn path_trash(&self) -> (path_trash: String)
        ensures
            path_trash@ == self@.path_trash,
    {
        self.path_trash.clone()
    }
}

/// The ledger: the records of the trashed items, oldest first.
#[derive(Debug)]
pub struct FileList {
    files: Vec<FileInfo>,
}

impl View for FileList {
    type V = Seq<Entry>;

    closed spec fn view(&self) -> Seq<Entry> {
        entries(self.files@)
    }
}

impl Clone for FileList {
    fn clone(&self) -> (copy: Self)
        ensures
            copy@ == self@,
    {
        let mut files: Vec<FileInfo> = Vec::new();
        let mut i: usize = 0;
        while i < self.files.len()
            invariant
                i <= self.files.len(),
                entries(files@) == entries(self.files@.take(i as int)),
            decreases self.files.len() - i,
        {
            let ghost before = files@;
            files.push(self.files[i].clone());
            proof {
                let seen = self.files@.take(i as int);
                assert(self.files@.take(i + 1) == seen.push(self.files[i as int]));
                lemma_entries_push(seen, self.files[i as int]);
                lemma_entries_push(before, files[i as int]);
            }
            i += 1;
        }
        proof {
            assert(self.files@.take(i as int) == self.files@);
        }
        FileList { files }
    }
}

impl PartialEq for FileList {
    fn eq(&self, other: &Self) -> (same: bool) {
        if self.files.len() != other.files.len() {
            proof {
                assert(self@.len() != other@.len());
            }
            return false;
        }
        let mut i: usize = 0;
        while i < self.files.len()
            invariant
                i <= self.files.len(),
                self.files.len() == other.files.len(),
                forall|j: int| 0 <= j < i ==> self@[j] == other@[j],
            decreases self.files.len() - i,
        {
            if self.files[i] != other.files[i] {
                proof {
                    assert(self@[i as int] != other@[i as int]);
                }
                return false;
            }
            i += 1;
        }
        proof {
            assert(self@ =~= other@);
        }
        true
    }
}

impl PartialEqSpecImpl for FileList {
    open spec fn obeys_eq_spec() -> bool {
        true
    }

    open spec fn eq_spec(&self, other: &Self) -> bool {
        self@ == other@
    }
}

impl FileList {
    /// The empty ledger.
    pub fn new() -> (list: Self)
        ensures
            list@ == Seq::<Entry>::empty(),
    {
        FileList { files: Vec::new() }
    }

    /// The items, oldest first.
    pub fn files(&self) -> (files: &Vec<FileInfo>)
        ensures
            entries(files@) == self@,
            files@.len() == self@.len(),
    {
        &self.files
    }

    /// The ledger with both paths of every record resolved, in the same
    /// order. Each stored path is handed to [`resolve`], the original path
    /// of a record before its trash path, and the record is made of the two
    /// that come back. An empty ledger resolves nothing and comes back empty.
    /// Fails with the first path that cannot be resolved.
    pub fn resolved(&self) -> (resolved: Result<Self, Error>)
        ensures
            match resolved {
                Ok(list) => resolved_from(self@, list@),
                Err(e) => e is FileOperation,
            },
            self@.len() == 0 ==> resolved is Ok,
    {
        let mut list = FileList::new();
        let mut i: usize = 0;
        while i < self.files.len()
            invariant
                i <= self.files.len(),
                list@.len() == i,
                self@.len() == self.files.len(),
                forall|k: int|
                    0 <= k < i ==> resolves_to(self@[k].path, (#[trigger] list@[k]).path)
                        && resolves_to(self@[k].path_trash, list@[k].path_trash),
            decreases self.files.len() - i,
        {
            let path = match resolve(self.files[i].path.as_str()) {
                Ok(path) => path,
                Err(e) => {
                    return Err(e);
                },
            };
            let path_trash = match resolve(self.files[i].path_trash.as_str()) {
                Ok(path_trash) => path_trash,
                Err(e) => {
                    return Err(e);
                },
            };
            proof {
                assert(self@[i as int] == self.files[i as int]@);
            }
            list.add(&FileInfo::from_paths(path, path_trash));
            i += 1;
        }
        Ok(list)
    }

    /// Appends `fileinfo`. Nothing is looked up first: a record that is
    /// already there is then there twice.
    pub fn add(&mut self, fileinfo: &FileInfo) -> (list: &Self)
        ensures
            final(self)@ == old(self)@.push(fileinfo@),
            list@ == final(self)@,
    {
        let ghost before = self.files@;
        self.files.push(fileinfo.clone());
        proof {
            lemma_entries_push(before, self.files[self.files.len() - 1]);
        }
        self
    }

    /// Removes every record that is the same as `fileinfo`. The others keep
    /// their order.
    pub fn remove(&mut self, fileinfo: &FileInfo) -> (list: &Self)
        ensures
            final(self)@ == without(old(self)@, fileinfo@),
            list@ == final(self)@,
    {
        let mut kept: Vec<FileInfo> = Vec::new();
        let mut i: usize = 0;
        while i < self.files.len()
            invariant
                i <= self.files.len(),
                entries(kept@) == without(entries(self.files@.take(i as int)), fileinfo@),
            decreases self.files.len() - i,
        {
            proof {
                let seen = self.files@.take(i as int);
                assert(self.files@.take(i + 1) == seen.push(self.files[i as int]));
                lemma_entries_push(seen, self.files[i as int]);
                entries(seen).lemma_filter_push(self.files[i as int]@, other_than(fileinfo@));
            }
            if self.files[i] != *fileinfo {
                let ghost before = kept@;
                kept.push(self.files[i].clone());
                proof {
                    lemma_entries_push(before, kept[kept.len() - 1]);
                }
            }
            i += 1;
        }
        proof {
            assert(self.files@.take(i as int) == self.files@);
        }
        self.files = kept;
        self
    }
}

} // verus!
