//! The output directory: deciding whether a path can be used, and naming
//! the files in it.
use vstd::prelude::*;
use crate::text::{chars_of, push_str};

verus! {

/// What the output directory check does next.
#[derive(Debug, Clone, Copy, PartialEq, Eq, Structural)]
pub enum OutputDirAction {
    /// Nothing is at the path: create the directory (and its parents).
    Create,
    /// The path is usable as it is.
    Accept,
    /// Something that is not a directory is at the path.
    RejectNotADirectory,
    /// The directory must be checked for entries.
    ListEntries,
    /// The directory holds entries and may not be overwritten.
    RejectNotEmpty,
}

/// The next step of checking an output path: a missing path is created; an
/// existing one must be a directory; unless overwriting is allowed, it must
/// also be empty (`has_entries` is `None` until the entries were listed).
pub fn output_dir_action(exists: bool, is_dir: bool, overwrite: bool, has_entries: Option<bool>) -> (a: OutputDirAction)
    ensures
        !exists ==> a == OutputDirAction::Create,
        exists && !is_dir ==> a == OutputDirAction::RejectNotADirectory,
        exists && is_dir && overwrite ==> a == OutputDirAction::Accept,
        exists && is_dir && !overwrite ==> a == (match has_entries {
            None => OutputDirAction::ListEntries,
            Some(true) => OutputDirAction::RejectNotEmpty,
            Some(false) => OutputDirAction::Accept,
        }),
{
    if !exists {
        return OutputDirAction::Create;
    }
    if !is_dir {
        return OutputDirAction::RejectNotADirectory;
    }
    if overwrite {
        return OutputDirAction::Accept;
    }
    match has_entries {
        None => OutputDirAction::ListEntries,
        Some(true) => OutputDirAction::RejectNotEmpty,
        Some(false) => OutputDirAction::Accept,
    }
}

/// The path of file `name` in directory `dir`, as `Path::join` forms it on
/// Unix: an absolute `name` stands for itself; otherwise a `/` separates
/// the two unless `dir` is empty or already ends with one.
pub open spec fn joined_path(dir: Seq<char>, name: Seq<char>) -> Seq<char> {
    if name.len() > 0 && name[0] == '/' {
        name
    } else if dir.len() == 0 || dir.last() == '/' {
        dir + name
    } else {
        dir + seq!['/'] + name
    }
}

/// An output directory that was checked and can take result files.
#[derive(Debug, Clone)]
pub struct OutputDir {
    path: String,
}

impl OutputDir {
    pub closed spec fn spec_path(self) -> Seq<char> {
        self.path@
    }

    /// The directory at `path`, once it was found usable.
    pub fn accepted(path: String) -> (d: Self)
        ensures
            d.spec_path() == path@,
    {
        OutputDir { path }
    }

    /// The directory's path.
    pub fn path(&self) -> (p: &str)
        ensures
            p@ == self.spec_path(),
    {
        self.path.as_str()
    }

    /// The path of the file `name` in the directory.
    pub fn file_path(&self, name: &str) -> (p: String)
        ensures
            p@ == joined_path(self.spec_path(), name@),
    {
        let n = chars_of(name);
        if n.len() > 0 && n[0] == '/' {
            return name.to_owned();
        }
        let d = chars_of(self.path.as_str());
        let mut p = self.path.clone();
        if d.len() > 0 && d[d.len() - 1] != '/' {
            push_str(&mut p, "/");
            proof {
                reveal_strlit("/");
            }
        }
        push_str(&mut p, name);
        p
    }
}

} // verus!
