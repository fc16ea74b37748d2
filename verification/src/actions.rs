//! The decisions of the trash engine.
//!
//! An operation runs in two steps. A planning function ([`remove`],
//! [`delete`], [`restore`], [`clean`]) looks at what the caller saw on the
//! file system and says what is to be done, as an [`Action`]. The caller
//! tries to carry the action out and hands the outcome to [`settle`], which
//! says what the ledger holds from then on: what [`commit`] makes of it after
//! a success, and what it held before after a failure. Between the two steps,
//! [`call`] decides whether the user agreed.

use crate::error::Error;
use crate::file_list::{base_name, entries, entry_of, without, Entry, FileInfo, FileList};
use crate::path::{Locations, WrmPath};
use crate::trusted::{file_name, lowercased, to_lowercase, trim, trimmed};
use vstd::prelude::*;
use vstd::string::*;

verus! {

/// What lies at a path.
#[derive(Clone, Copy, Debug, PartialEq, Eq, Structural)]
pub enum FileKind {
    /// A regular file.
    File,
    /// A directory.
    Directory,
    /// A symbolic link, whatever it points to.
    Symlink,
    /// Anything else.
    Other,
}

impl FileKind {
    /// The word for the kind.
    pub open spec fn label(self) -> Seq<char> {
        match self {
            FileKind::File => "file"@,
            FileKind::Directory => "directory"@,
            FileKind::Symlink => "symlink"@,
            FileKind::Other => "other"@,
        }
    }

    /// The word for the kind, as it is shown to the user.
    pub fn name(&self) -> (name: &'static str)
        ensures
            name@ == self.label(),
    {
        match self {
            FileKind::File => "file",
            FileKind::Directory => "directory",
            FileKind::Symlink => "symlink",
            FileKind::Other => "other",
        }
    }
}

/// A change to the file system, by its paths.
pub enum ActionView {
    Unlink(Seq<char>),
    Trash(Entry),
    Delete(Seq<char>),
    Restore(Entry),
    Purge { trash: Seq<char>, list: Seq<char> },
}

/// A change to the file system that an operation has decided on and the
/// caller is to carry out.
#[derive(Debug)]
pub enum Action {
    /// Delete the symbolic link at this path. Nothing is recorded.
    Unlink(String),
    /// Move the item at the record's original path into the trash directory,
    /// then record it.
    Trash(FileInfo),
    /// Delete what lies at this path for good, with all that is below it.
    Delete(String),
    /// Move the item from the record's trash path back to its original
    /// path, then drop the record.
    Restore(FileInfo),
    /// Delete the trash directory and the ledger file.
    Purge { trash: String, list: String },
}

impl View for Action {
    type V = ActionView;

    open spec fn view(&self) -> ActionView {
        match self {
            Action::Unlink(path) => ActionView::Unlink(path@),
            Action::Trash(info) => ActionView::Trash(info@),
            Action::Delete(path) => ActionView::Delete(path@),
            Action::Restore(info) => ActionView::Restore(info@),
            Action::Purge { trash, list } => ActionView::Purge { trash: trash@, list: list@ },
        }
    }
}

impl Action {
    /// Whether the ledger file has to be written again once the action has
    /// been carried out. It has after a move into the trash or out of it. A
    /// deletion leaves the ledger as it is, and a purge leaves no ledger file
    /// to write to.
    pub fn recorded(&self) -> (yes: bool)
        ensures
            yes == (self@ is Trash || self@ is Restore),
    {
        match self {
            Action::Trash(_) => true,
            Action::Restore(_) => true,
            Action::Unlink(_) => false,
            Action::Delete(_) => false,
            Action::Purge { .. } => false,
        }
    }
}

/// What is done with the item of kind `kind` at `path` when it is removed: a
/// symbolic link is deleted, anything else goes to the trash directory
/// `trash`.
pub open spec fn removal(path: Seq<char>, kind: FileKind, trash: Seq<char>) -> ActionView {
    if kind == FileKind::Symlink {
        ActionView::Unlink(path)
    } else {
        ActionView::Trash(entry_of(trash, path))
    }
}

/// Whether a record has the trash path `target`.
pub open spec fn lies_at(target: Seq<char>) -> spec_fn(Entry) -> bool {
    |e: Entry| e.path_trash == target
}

/// The oldest record of `ledger` whose trash path is `target`.
pub open spec fn lookup(ledger: Seq<Entry>, target: Seq<char>) -> Option<Entry> {
    let found = ledger.filter(lies_at(target));
    if found.len() > 0 {
        Some(found.first())
    } else {
        None
    }
}

/// A plan by its paths.
pub open spec fn plan_view(plan: Option<Action>) -> Option<ActionView> {
    match plan {
        Some(action) => Some(action@),
        None => None,
    }
}

/// What is done to restore what lies at `target` in the trash: the oldest
/// record with that trash path is restored, and nothing where there is none.
pub open spec fn restoration(ledger: Seq<Entry>, target: Seq<char>) -> Option<ActionView> {
    match lookup(ledger, target) {
        Some(entry) => Some(ActionView::Restore(entry)),
        None => None,
    }
}

/// What is done to clean the trash: nothing where the ledger is empty, else
/// the trash directory and the ledger file are deleted.
pub open spec fn purge(ledger: Seq<Entry>, places: Locations) -> Option<ActionView> {
    if ledger.len() == 0 {
        None
    } else {
        Some(ActionView::Purge { trash: places.trash, list: places.list })
    }
}

/// The ledger once `action` has been carried out on the file system.
pub open spec fn committed(ledger: Seq<Entry>, action: ActionView) -> Seq<Entry> {
    match action {
        ActionView::Trash(entry) => ledger.push(entry),
        ActionView::Restore(entry) => without(ledger, entry),
        ActionView::Purge { .. } => Seq::empty(),
        ActionView::Unlink(_) => ledger,
        ActionView::Delete(_) => ledger,
    }
}

/// The texts of a sequence of strings, in the same order.
pub open spec fn texts(strings: Seq<String>) -> Seq<Seq<char>> {
    strings.map_values(|s: String| s@)
}

/// Whether the trash path of a record is none of `missing`.
pub open spec fn still_there(missing: Seq<Seq<char>>) -> spec_fn(Entry) -> bool {
    |e: Entry| !missing.contains(e.path_trash)
}

/// `ledger` without the records whose trash path is among `missing`.
pub open spec fn reconciled(ledger: Seq<Entry>, missing: Seq<Seq<char>>) -> Seq<Entry> {
    ledger.filter(still_there(missing))
}

/// Plans the removal of the item at `path`, which the caller has resolved
/// and found to be of kind `kind`. A symbolic link is deleted outright.
/// Anything else is moved to the trash directory of `wrm_path`, under its
/// own name.
pub fn remove(path: &str, kind: FileKind, wrm_path: &WrmPath) -> (plan: Action)
    ensures
        plan@ == removal(path@, kind, wrm_path@.trash),
{
    match kind {
        FileKind::Symlink => Action::Unlink(String::from_str(path)),
        _ => Action::Trash(FileInfo::in_trash(path, wrm_path.trash().as_str())),
    }
}

/// Plans the deletion of the item at `path`, which bypasses the trash.
pub fn delete(path: &str) -> (plan: Action)
    ensures
        plan@ == ActionView::Delete(path@),
{
    Action::Delete(String::from_str(path))
}

/// Plans the restoring of what lies at `path` in the trash. The oldest record
/// with that trash path is the one restored; `None` says that the ledger has
/// no such record, and then there is nothing to do. Paths are compared as
/// they are: the caller resolves `path`, and hands the ledger over with its
/// paths resolved.
pub fn restore(path: &str, filelist: &FileList) -> (plan: Option<Action>)
    ensures
        plan_view(plan) == restoration(filelist@, path@),
{
    let target = String::from_str(path);
    let files = filelist.files();
    let ghost wanted = lies_at(path@);
    let mut i: usize = 0;
    while i < files.len()
        invariant
            i <= files.len(),
            target@ == path@,
            entries(files@) == filelist@,
            wanted == lies_at(path@),
            filelist@.take(i as int).filter(wanted).len() == 0,
        decreases files.len() - i,
    {
        let found = files[i].path_trash() == target;
        proof {
            let seen = filelist@.take(i as int);
            assert(filelist@.take(i + 1) == seen.push(filelist@[i as int]));
            seen.lemma_filter_push(filelist@[i as int], wanted);
        }
        if found {
            proof {
                let rest = filelist@.skip(i + 1);
                assert(filelist@ == filelist@.take(i + 1) + rest);
                Seq::filter_distributes_over_add(filelist@.take(i + 1), rest, wanted);
                assert(filelist@.take(i + 1).filter(wanted) == seq![filelist@[i as int]]);
            }
            return Some(Action::Restore(files[i].clone()));
        }
        i += 1;
    }
    proof {
        assert(filelist@.take(i as int) == filelist@);
    }
    None
}

/// Plans the purge of the trash. With an empty ledger there is nothing to
/// clean, and no plan. Otherwise the trash directory and the ledger file both
/// go, whatever the records say.
pub fn clean(filelist: &FileList, wrm_path: &WrmPath) -> (plan: Option<Action>)
    ensures
        plan_view(plan) == purge(filelist@, wrm_path@),
{
    if filelist.files().len() == 0 {
        None
    } else {
        Some(Action::Purge { trash: wrm_path.trash().clone(), list: wrm_path.list().clone() })
    }
}

/// Brings the ledger up to date once `action` has been carried out.
pub fn commit(filelist: &mut FileList, action: &Action)
    ensures
        final(filelist)@ == committed(old(filelist)@, action@),
{
    match action {
        Action::Trash(info) => {
            filelist.add(info);
        },
        Action::Restore(info) => {
            filelist.remove(info);
        },
        Action::Purge { .. } => {
            *filelist = FileList::new();
        },
        Action::Unlink(_) => {},
        Action::Delete(_) => {},
    }
}

/// The ledger once the attempt to carry `action` out has ended in `outcome`:
/// what [`committed`] says where it succeeded, and the ledger as it was where
/// it failed. The item is moved first and recorded after, so that a failed
/// move leaves no record of an item that is not in the trash.
pub open spec fn after_attempt(
    ledger: Seq<Entry>,
    action: ActionView,
    outcome: Result<(), String>,
) -> Seq<Entry> {
    match outcome {
        Ok(_) => committed(ledger, action),
        Err(_) => ledger,
    }
}

/// Whether `done` is what [`settle`] answers to `outcome`: after a success,
/// whether the ledger file has to be written again, which it has after a move
/// into the trash or out of it; after a failure, a failed file operation with
/// the message of the failure.
pub open spec fn answers(
    action: ActionView,
    outcome: Result<(), String>,
    done: Result<bool, Error>,
) -> bool {
    match outcome {
        Ok(_) => done matches Ok(write) && write == (action is Trash || action is Restore),
        Err(text) => done matches Err(e) && e is FileOperation && e.text() == text@,
    }
}

/// Takes in how the attempt to carry `action` out has ended. `outcome` is
/// `Ok` where the file system was changed as the action says, and else the
/// message of the failure. After a success the ledger is brought up to date,
/// and the answer says whether the ledger file has to be written again. After
/// a failure the ledger stays as it is, and the failure is handed on.
pub fn settle(filelist: &mut FileList, action: &Action, outcome: Result<(), String>) -> (done: Result<
    bool,
    Error,
>)
    ensures
        final(filelist)@ == after_attempt(old(filelist)@, action@, outcome),
        answers(action@, outcome, done),
{
    match outcome {
        Ok(_) => {
            commit(filelist, action);
            Ok(action.recorded())
        },
        Err(text) => Err(Error::FileOperation(text)),
    }
}

/// Whether `path` is one of `paths`.
fn among(paths: &Vec<String>, path: &String) -> (found: bool)
    ensures
        found == texts(paths@).contains(path@),
{
    let mut i: usize = 0;
    while i < paths.len()
        invariant
            i <= paths.len(),
            forall|j: int| 0 <= j < i ==> texts(paths@)[j] != path@,
        decreases paths.len() - i,
    {
        if paths[i] == *path {
            proof {
                assert(texts(paths@)[i as int] == path@);
            }
            return true;
        }
        i += 1;
    }
    false
}

/// Reconciles the ledger with the trash directory. `missing` holds the trash
/// paths that the caller looked for and did not find. Every record of such a
/// path is dropped; the others stay as they are, in their order. Says whether
/// any record was dropped, which is when the ledger has to be written again.
pub fn check(filelist: &mut FileList, missing: &Vec<String>) -> (pruned: bool)
    ensures
        final(filelist)@ == reconciled(old(filelist)@, texts(missing@)),
        pruned == (final(filelist)@.len() < old(filelist)@.len()),
{
    let ghost there = still_there(texts(missing@));
    let mut kept = FileList::new();
    let mut pruned = false;
    let files = filelist.files();
    let mut i: usize = 0;
    while i < files.len()
        invariant
            i <= files.len(),
            entries(files@) == filelist@,
            there == still_there(texts(missing@)),
            kept@ == filelist@.take(i as int).filter(there),
            pruned == (kept@.len() < i),
            kept@.len() <= i,
        decreases files.len() - i,
    {
        proof {
            let seen = filelist@.take(i as int);
            assert(filelist@.take(i + 1) == seen.push(filelist@[i as int]));
            seen.lemma_filter_push(filelist@[i as int], there);
        }
        if among(missing, &files[i].path_trash()) {
            pruned = true;
        } else {
            kept.add(&files[i]);
        }
        i += 1;
    }
    proof {
        assert(filelist@.take(i as int) == filelist@);
    }
    *filelist = kept;
    pruned
}

/// Whether `word`, a reply without the white space around it and in lower
/// case, agrees. Only `y` does.
pub open spec fn affirms(word: Seq<char>) -> bool {
    word == "y"@
}

/// Whether the line `reply` agrees: whether it [`affirms`] once trimmed and
/// put in lower case.
pub open spec fn agrees(reply: Seq<char>) -> bool {
    affirms(lowercased(trimmed(reply)))
}

/// Whether `word` is an agreement. `word` is taken as it is.
pub fn affirmative(word: &str) -> (yes: bool)
    ensures
        yes == affirms(word@),
{
    String::from_str(word) == String::from_str("y")
}

/// Whether the line that the user typed agrees to what was asked.
pub fn confirm(reply: &str) -> (yes: bool)
    ensures
        yes == agrees(reply@),
{
    let word = to_lowercase(trim(reply));
    affirmative(word.as_str())
}

/// Whether an action is to go ahead. Without interaction it always is, and
/// `reply` is not looked at. Otherwise it is if the user was asked and the
/// reply agrees.
pub fn call(noninteractive: bool, reply: Option<&str>) -> (go: bool)
    ensures
        go == (noninteractive || (reply matches Some(line) && agrees(line@))),
{
    if noninteractive {
        true
    } else {
        match reply {
            Some(line) => confirm(line),
            None => false,
        }
    }
}

/// One line of the listing, by its parts.
pub struct RowView {
    /// The name of the item in the trash.
    pub name: Seq<char>,
    /// The path it came from.
    pub path: Seq<char>,
    /// Whether it is a file or a directory.
    pub kind: FileKind,
}

impl RowView {
    /// The line as it is shown: the name, the original path in round
    /// brackets, the kind.
    pub open spec fn line(self) -> Seq<char> {
        self.name + " ("@ + self.path + ") "@ + self.kind.label()
    }
}

/// One line of the listing of the trash.
#[derive(Debug)]
pub struct Row {
    name: String,
    path: String,
    kind: FileKind,
}

impl View for Row {
    type V = RowView;

    closed spec fn view(&self) -> RowView {
        RowView { name: self.name@, path: self.path@, kind: self.kind }
    }
}

/// The line for `entry`, whose trash path is called `name` and holds
/// something of kind `kind`. A file or a directory is listed; a symbolic
/// link, anything else, and a path at which nothing was found are not.
pub open spec fn shown(entry: Entry, kind: Option<FileKind>, name: Seq<char>) -> Option<RowView> {
    match kind {
        Some(FileKind::File) => Some(RowView { name, path: entry.path, kind: FileKind::File }),
        Some(FileKind::Directory) => Some(
            RowView { name, path: entry.path, kind: FileKind::Directory },
        ),
        _ => None,
    }
}

/// The line for `entry`, at whose trash path `kind` was found.
pub open spec fn row_of(entry: Entry, kind: Option<FileKind>) -> Option<RowView> {
    shown(entry, kind, base_name(entry.path_trash))
}

/// What was found at the trash path of the record `i`: nothing, where the
/// caller says nothing of it.
pub open spec fn kind_at(kinds: Seq<Option<FileKind>>, i: int) -> Option<FileKind> {
    if 0 <= i < kinds.len() {
        kinds[i]
    } else {
        None
    }
}

/// The listing of `ledger`: the lines of its records that are shown, in the
/// ledger's order.
pub open spec fn listing(ledger: Seq<Entry>, kinds: Seq<Option<FileKind>>) -> Seq<RowView> {
    Seq::new(ledger.len(), |i: int| row_of(ledger[i], kind_at(kinds, i))).filter_map(
        |row: Option<RowView>| row,
    )
}

/// A line, if there is one, by its parts.
pub open spec fn row_view(row: Option<Row>) -> Option<RowView> {
    match row {
        Some(r) => Some(r@),
        None => None,
    }
}

/// The parts of a sequence of lines, in the same order.
pub open spec fn rows(lines: Seq<Row>) -> Seq<RowView> {
    lines.map_values(|row: Row| row@)
}

impl Row {
    /// The line for `info`, at whose trash path `kind` was found.
    pub fn of(info: &FileInfo, kind: Option<FileKind>) -> (row: Option<Self>)
        ensures
            row_view(row) == row_of(info@, kind),
    {
        let path_trash = info.path_trash();
        Row::named(info, kind, file_name(path_trash.as_str()))
    }

    /// The line for `info`, at whose trash path `kind` was found, where
    /// `name` is the final component of that path, if it has one. Without one
    /// the whole trash path stands for the name.
    pub fn named(info: &FileInfo, kind: Option<FileKind>, name: Option<String>) -> (row: Option<
        Self,
    >)
        ensures
            row_view(row) == shown(
                info@,
                kind,
                match name {
                    Some(n) => n@,
                    None => info@.path_trash,
                },
            ),
    {
        let name = match name {
            Some(n) => n,
            None => info.path_trash(),
        };
        match kind {
            Some(FileKind::File) => Some(Row { name, path: info.path(), kind: FileKind::File }),
            Some(FileKind::Directory) => Some(
                Row { name, path: info.path(), kind: FileKind::Directory },
            ),
            _ => None,
        }
    }

    /// The name of the item in the trash.
    pub fn name(&self) -> (name: &String)
        ensures
            name@ == self@.name,
    {
        &self.name
    }

    /// The path that the item came from.
    pub fn path(&self) -> (path: &String)
        ensures
            path@ == self@.path,
    {
        &self.path
    }

    /// Whether the item is a file or a directory.
    pub fn kind(&self) -> (kind: FileKind)
        ensures
            kind == self@.kind,
    {
        self.kind
    }

    /// The line as it is shown.
    pub fn text(&self) -> (text: String)
        ensures
            text@ == self@.line(),
    {
        let mut text = self.name.clone();
        text.append(" (");
        text.append(self.path.as_str());
        text.append(") ");
        text.append(self.kind.name());
        text
    }
}

/// Lists the trash. `kinds` holds, for each record in the ledger's order,
/// what the caller found at its trash path. A record of which `kinds` says
/// nothing is not shown. The ledger is left as it is.
pub fn list(filelist: &FileList, kinds: &Vec<Option<FileKind>>) -> (lines: Vec<Row>)
    ensures
        rows(lines@) == listing(filelist@, kinds@),
{
    let ghost found = Seq::new(filelist@.len(), |i: int| row_of(filelist@[i], kind_at(kinds@, i)));
    let ghost id = |row: Option<RowView>| row;
    let files = filelist.files();
    let mut lines: Vec<Row> = Vec::new();
    let mut i: usize = 0;
    while i < files.len()
        invariant
            i <= files.len(),
            entries(files@) == filelist@,
            files@.len() == filelist@.len(),
            found == Seq::new(filelist@.len(), |i: int| row_of(filelist@[i], kind_at(kinds@, i))),
            id == |row: Option<RowView>| row,
            rows(lines@) == found.take(i as int).filter_map(id),
        decreases files.len() - i,
    {
        let kind = if i < kinds.len() {
            kinds[i]
        } else {
            None
        };
        proof {
            found.lemma_filter_map_take_succ(id, i as int);
        }
        let ghost before = lines@;
        match Row::of(&files[i], kind) {
            Some(row) => {
                lines.push(row);
                proof {
                    assert(rows(lines@) =~= rows(before).push(row@));
                }
            },
            None => {},
        }
        i += 1;
    }
    proof {
        assert(found.take(i as int) == found);
    }
    lines
}

} // verus!
