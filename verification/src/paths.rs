//! The display form of the compiled file's path, relative to a base directory.

use vstd::prelude::*;

verus! {

/// The identity of the file being compiled: a path on disk, or a name of
/// another kind, held by its display text.
#[derive(Clone, Debug, PartialEq, Eq)]
pub enum FileName {
    Real(String),
    Other(String),
}

pub enum FileNameModel {
    Real(Seq<char>),
    Other(Seq<char>),
}

impl FileNameModel {
    /// The name's display text.
    pub open spec fn text(self) -> Seq<char> {
        match self {
            FileNameModel::Real(p) => p,
            FileNameModel::Other(s) => s,
        }
    }
}

impl View for FileName {
    type V = FileNameModel;

    open spec fn view(&self) -> FileNameModel {
        match self {
            FileName::Real(p) => FileNameModel::Real(p@),
            FileName::Other(s) => FileNameModel::Other(s@),
        }
    }
}

/// The view of an optional string.
pub open spec fn opt_view(s: Option<String>) -> Option<Seq<char>> {
    match s {
        Some(s) => Some(s@),
        None => None,
    }
}

/// What `pathdiff::diff_paths` makes of a path and a base, as display text.
pub uninterp spec fn diff_paths_text(path: Seq<char>, base: Seq<char>) -> Option<Seq<char>>;

/// Calls `pathdiff::diff_paths` on the two paths and turns a path that comes
/// back into its display text. The contract only names the outcome: the
/// function compares the components of its two arguments and reads nothing
/// else, so equal arguments give equal results.
#[verifier::external_body]
fn diff_paths(path: &str, base: &str) -> (r: Option<String>)
    ensures
        opt_view(r) == diff_paths_text(path@, base@),
{
    match pathdiff::diff_paths(path, base) {
        Some(p) => Some(p.display().to_string()),
        None => None,
    }
}

/// The text shown for `path` once the difference to the base is known: the
/// relative path where there is one, else `path` itself.
pub open spec fn relative_or_full_spec(path: Seq<char>, diff: Option<Seq<char>>) -> Seq<char> {
    match diff {
        Some(rel) => rel,
        None => path,
    }
}

/// The text shown for `file` seen from `base`.
pub open spec fn rel_filename_spec(base: Option<Seq<char>>, file: FileNameModel) -> Seq<char> {
    match (base, file) {
        (Some(b), FileNameModel::Real(p)) => relative_or_full_spec(p, diff_paths_text(p, b)),
        _ => file.text(),
    }
}

/// Picks the relative path where one was computed, else the path as given.
pub fn relative_or_full(path: &String, diff: Option<String>) -> (r: String)
    ensures
        r@ == relative_or_full_spec(path@, opt_view(diff)),
{
    match diff {
        Some(rel) => rel,
        None => path.clone(),
    }
}

/// The display text of `file` relative to `base`. Without a base, or for a
/// file that is no path on disk, the file's own text; where no relative path
/// exists, the path as given.
pub fn rel_filename(base: &Option<String>, file: &FileName) -> (r: String)
    ensures
        r@ == rel_filename_spec(opt_view(*base), file@),
{
    match base {
        None => match file {
            FileName::Real(p) => p.clone(),
            FileName::Other(s) => s.clone(),
        },
        Some(b) => match file {
            FileName::Real(p) => {
                let diff = diff_paths(p.as_str(), b.as_str());
                relative_or_full(p, diff)
            },
            FileName::Other(s) => s.clone(),
        },
    }
}

} // verus!
