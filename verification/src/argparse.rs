//! From the arguments of the command line to the operation they ask for.

use crate::actions::texts;
use crate::error::Error;
use vstd::prelude::*;
use vstd::string::*;

verus! {

/// The arguments of the command line, parsed.
#[derive(Debug)]
pub struct Args {
    /// The paths to work on.
    pub file: Option<Vec<String>>,
    /// Purge the trash.
    pub clean: bool,
    /// Delete the paths for good, bypassing the trash.
    pub delete: bool,
    /// List the trash.
    pub list: bool,
    /// Put the paths, which lie in the trash, back where they came from.
    pub restore: bool,
    /// Ask nothing before acting.
    pub noninteractive: bool,
    /// Do not say what is being done.
    pub quiet: bool,
}

/// What the user asks for, by its paths.
pub enum OperationView {
    Clean,
    List,
    Delete(Seq<Seq<char>>),
    Restore(Seq<Seq<char>>),
    Remove(Seq<Seq<char>>),
}

/// What the user asks for.
#[derive(Debug)]
pub enum Operation {
    /// Purge the trash.
    Clean,
    /// List the trash.
    List,
    /// Delete these paths for good.
    Delete(Vec<String>),
    /// Restore these paths of the trash.
    Restore(Vec<String>),
    /// Move these paths to the trash.
    Remove(Vec<String>),
}

impl View for Operation {
    type V = OperationView;

    open spec fn view(&self) -> OperationView {
        match self {
            Operation::Clean => OperationView::Clean,
            Operation::List => OperationView::List,
            Operation::Delete(paths) => OperationView::Delete(texts(paths@)),
            Operation::Restore(paths) => OperationView::Restore(texts(paths@)),
            Operation::Remove(paths) => OperationView::Remove(texts(paths@)),
        }
    }
}

impl Operation {
    /// Whether the ledger is reconciled with the trash directory after each
    /// path of the operation. It is after a deletion only, which may have
    /// taken a trashed item with it. A restoring drops the record that it
    /// restores and no other: a younger record of the same trash path stays,
    /// though nothing lies there any more, until a deletion reconciles.
    pub fn reconciles(&self) -> (yes: bool)
        ensures
            yes == (self@ is Delete),
    {
        match self {
            Operation::Delete(_) => true,
            Operation::Restore(_) => false,
            Operation::Clean => false,
            Operation::List => false,
            Operation::Remove(_) => false,
        }
    }
}

/// The operation that `args` select, if they select one. `clean` goes before
/// `list`, and both before the paths; with paths, `delete` goes before
/// `restore`, and without either the paths are moved to the trash. Without
/// paths only `clean` and `list` can be asked for.
pub open spec fn selected(args: Args) -> Option<OperationView> {
    if args.clean {
        Some(OperationView::Clean)
    } else if args.list {
        Some(OperationView::List)
    } else {
        match args.file {
            Some(paths) => Some(
                if args.delete {
                    OperationView::Delete(texts(paths@))
                } else if args.restore {
                    OperationView::Restore(texts(paths@))
                } else {
                    OperationView::Remove(texts(paths@))
                },
            ),
            None => None,
        }
    }
}

/// The text of the failure where the arguments select nothing.
pub open spec fn incorrect_arguments() -> Seq<char> {
    "Incorrect arguments"@
}

/// Picks the operation that the arguments ask for. Fails with
/// [`Error::Arguments`] where they give no path and ask neither for `clean`
/// nor for `list`.
pub fn argparse(args: Args) -> (chosen: Result<Operation, Error>)
    ensures
        match chosen {
            Ok(operation) => selected(args) == Some(operation@),
            Err(e) => selected(args) is None && e is Arguments && e.text()
                == incorrect_arguments(),
        },
{
    if args.clean {
        Ok(Operation::Clean)
    } else if args.list {
        Ok(Operation::List)
    } else {
        match args.file {
            Some(paths) => {
                if args.delete {
                    Ok(Operation::Delete(paths))
                } else if args.restore {
                    Ok(Operation::Restore(paths))
                } else {
                    Ok(Operation::Remove(paths))
                }
            },
            None => Err(Error::Arguments(String::from_str("Incorrect arguments"))),
        }
    }
}

} // verus!
