//! What this crate takes on trust from `filey` and from `std`.
//!
//! Nothing in this file is proved. Each function makes one call, and its
//! contract says what that call is relied on to do.

use vstd::prelude::*;

verus! {

/// The final component of `path`, as `filey::Filey::file_name` gives it:
/// `None` where the path has none, as when it ends in `..`.
pub uninterp spec fn file_name_of(path: Seq<char>) -> Option<Seq<char>>;

/// What `str::trim` leaves of `text`: `text` without its leading and trailing
/// white space.
pub uninterp spec fn trimmed(text: Seq<char>) -> Seq<char>;

/// What `str::to_lowercase` makes of `text`.
pub uninterp spec fn lowercased(text: Seq<char>) -> Seq<char>;

/// What `filey::Filey::absolutized` makes of a path that is absolute
/// already: the path with its `.` and `..` components resolved by the text
/// alone. Neither the home directory nor the current directory has a part in
/// it.
pub uninterp spec fn normalized(path: Seq<char>) -> Seq<char>;

/// Whether `path` is absolute: whether it begins at the root directory.
pub open spec fn is_absolute(path: Seq<char>) -> bool {
    path.len() > 0 && path[0] == '/'
}

/// `path` with a leading `~` replaced by `home`; `path` itself where it does
/// not begin with `~`.
pub open spec fn expansion(path: Seq<char>, home: Seq<char>) -> Seq<char> {
    if path.len() > 0 && path[0] == '~' {
        home + path.skip(1)
    } else {
        path
    }
}

/// Whether `expanded` is `path` with a leading `~` replaced by some home
/// directory.
pub open spec fn expands_to(path: Seq<char>, expanded: Seq<char>) -> bool {
    exists|home: Seq<char>| expanded == #[trigger] expansion(path, home)
}

/// Calls `filey::Filey::file_name`, which returns the final component of the
/// path as a string, or `None` where `std::path::Path::file_name` finds none.
/// Trusted: the result is [`file_name_of`] of the path.
#[verifier::external_body]
pub(crate) fn file_name(path: &str) -> (name: Option<String>)
    ensures
        match name {
            Some(n) => file_name_of(path@) == Some(n@),
            None => file_name_of(path@) is None,
        },
{
    filey::Filey::new(path).file_name()
}

/// Calls `filey::Filey::expand_user`, which reads the variable `HOME`, fails
/// where it is unset or not Unicode, and otherwise replaces a leading `~` of
/// the path by its value. A failure comes back as its message. Trusted: a
/// path that comes back is the [`expansion`] of the given one by some home
/// directory. Which one, and whether the call succeeds, is the environment's
/// affair; nothing is claimed of a message.
#[verifier::external_body]
pub(crate) fn expand_user(path: &str) -> (expanded: Result<String, String>)
    ensures
        expanded matches Ok(p) ==> expands_to(path@, p@),
{
    match filey::Filey::new(path).expand_user() {
        Ok(f) => Ok(f.to_string()),
        Err(e) => Err(e.to_string()),
    }
}

/// Calls `filey::Filey::absolutized`, which expands a leading `~` as
/// `expand_user` does and then calls `absolutize` of `path-absolutize`,
/// documented to give an absolute path: a relative path is put behind the
/// current directory, and `.` and `..` are resolved by the text alone. The
/// file system is not looked at. A failure comes back as its message.
/// Trusted: a path that comes back is absolute, and where the given path is
/// absolute already it is [`normalized`] of that path, whatever the
/// environment. Whether the call succeeds, and what a relative path or one
/// with a leading `~` becomes, is the environment's affair.
#[verifier::external_body]
pub(crate) fn absolutized(path: &str) -> (resolved: Result<String, String>)
    ensures
        resolved matches Ok(p) ==> is_absolute(p@),
        resolved matches Ok(p) ==> (is_absolute(path@) ==> p@ == normalized(path@)),
{
    match filey::Filey::new(path).absolutized() {
        Ok(f) => Ok(f.to_string()),
        Err(e) => Err(e.to_string()),
    }
}

/// Calls `str::trim`. Trusted: the result is [`trimmed`] of the text.
#[verifier::external_body]
pub(crate) fn trim(text: &str) -> (rest: &str)
    ensures
        rest@ == trimmed(text@),
{
    text.trim()
}

/// Calls `str::to_lowercase`. Trusted: the result is [`lowercased`] of the
/// text.
#[verifier::external_body]
pub(crate) fn to_lowercase(text: &str) -> (lower: String)
    ensures
        lower@ == lowercased(text@),
{
    text.to_lowercase()
}

} // verus!
