//! Resolving the user's path into the absolute file path to compare events
//! against and the directory to watch.
use crate::error::Error;
use vstd::prelude::*;

verus! {

#[verifier::external_type_specification]
#[verifier::external_body]
pub struct ExIoError(std::io::Error);

/// What `std::path::Path::parent` returns for a path: the path without its
/// final component, or none for a root or an empty path.
pub uninterp spec fn parent_of(path: Seq<char>) -> Option<Seq<char>>;

/// Relies on `std::path::absolute`: the path made absolute against the current
/// directory, without touching the filesystem; an empty path is an error.
#[verifier::external_body]
fn absolutize(path: &str) -> (r: Result<String, std::io::Error>)
    ensures
        path@.len() == 0 ==> r is Err,
{
    match std::path::absolute(path) {
        Ok(p) => Ok(p.to_string_lossy().into_owned()),
        Err(e) => Err(e),
    }
}

/// Relies on the `Display` impl of `std::io::Error`, for the text of a failure.
#[verifier::external_body]
fn io_error_text(e: &std::io::Error) -> (r: String) {
    e.to_string()
}

/// Relies on `std::path::Path::parent`: the path without its final component.
#[verifier::external_body]
fn parent_dir(path: &str) -> (r: Option<String>)
    ensures
        r.deep_view() == parent_of(path@),
        path@.len() == 0 ==> r is None,
{
    match std::path::Path::new(path).parent() {
        Some(d) => Some(d.to_string_lossy().into_owned()),
        None => None,
    }
}

/// The absolute path of the watched file and the directory that holds it.
#[derive(Debug)]
pub struct WatchPaths {
    pub file: String,
    pub dir: String,
}

/// The directory to watch, given what `parent` returned: a parent that is
/// missing or empty leaves nothing to watch.
pub open spec fn watch_dir(parent: Option<Seq<char>>) -> Option<Seq<char>> {
    match parent {
        Some(d) => if d.len() > 0 { Some(d) } else { None },
        None => None,
    }
}

/// Pairs an absolute file path with its parent directory, given the parent that
/// was computed for it. Fails with a resolution error carrying the path when
/// there is no directory to watch.
pub fn watch_paths_from_parts(file: String, parent: Option<String>) -> (r: Result<WatchPaths, Error>)
    ensures
        match watch_dir(parent.deep_view()) {
            Some(d) => r matches Ok(w) && w.file@ == file@ && w.dir@ == d,
            None => r matches Err(Error::ResolutionError(m)) && m@ == file@,
        },
{
    match parent {
        Some(d) => {
            if d.as_str().unicode_len() > 0 {
                Ok(WatchPaths { file, dir: d })
            } else {
                Err(Error::ResolutionError(file))
            }
        },
        None => Err(Error::ResolutionError(file)),
    }
}

/// Pairs an absolute file path with its parent directory.
pub fn watch_paths_from_absolute(file: String) -> (r: Result<WatchPaths, Error>)
    ensures
        match watch_dir(parent_of(file@)) {
            Some(d) => r matches Ok(w) && w.file@ == file@ && w.dir@ == d,
            None => r matches Err(Error::ResolutionError(m)) && m@ == file@,
        },
{
    let parent = parent_dir(file.as_str());
    watch_paths_from_parts(file, parent)
}

/// Makes `path` absolute against the current directory and pairs it with its
/// parent directory. Fails with a resolution error when the path cannot be made
/// absolute (an empty path never can) or has no directory to watch.
pub fn resolve_watch_paths(path: &str) -> (r: Result<WatchPaths, Error>)
    ensures
        r matches Ok(w) ==> watch_dir(parent_of(w.file@)) == Some(w.dir@),
        r is Err ==> r->Err_0 is ResolutionError,
        path@.len() == 0 ==> r is Err,
{
    match absolutize(path) {
        Ok(file) => watch_paths_from_absolute(file),
        Err(e) => Err(Error::ResolutionError(io_error_text(&e))),
    }
}

} // verus!
