use vstd::prelude::*;

use crate::args::{names_current_dir, same_path};
use crate::scanner::GremlinLoc;

verus! {

/// What the scan of one path came to, in the order the printer shows it.
pub enum ScanEvent {
    Clean { path: String },
    GremlinsFound { path: String, gremlins: Vec<GremlinLoc> },
    SkippedBinary { path: String },
    Error { path: String, message: String },
    Warning { path: String, message: String },
}

impl ScanEvent {
    /// The event of a file read to its end: clean when no gremlin was found
    /// in it, else its gremlins.
    pub fn for_scanned_file(path: String, gremlins: Vec<GremlinLoc>) -> (res: ScanEvent)
        ensures
            gremlins@.len() == 0 ==> res == (ScanEvent::Clean { path }),
            gremlins@.len() > 0 ==> res == (ScanEvent::GremlinsFound { path, gremlins }),
    {
        if gremlins.len() == 0 {
            ScanEvent::Clean { path }
        } else {
            ScanEvent::GremlinsFound { path, gremlins }
        }
    }

    /// Whether the printer shows this event: errors and gremlins always,
    /// clean files, binary files and warnings only when verbose.
    pub fn is_shown(&self, verbose: bool) -> (res: bool)
        ensures
            res == match self {
                ScanEvent::Error { .. } | ScanEvent::GremlinsFound { .. } => true,
                _ => verbose,
            },
    {
        match self {
            ScanEvent::Error { .. } | ScanEvent::GremlinsFound { .. } => true,
            _ => verbose,
        }
    }
}

/// The first of the paths to scan that does not exist, where the default
/// path `.` never counts as missing; `exists[i]` tells whether `paths[i]`
/// exists.
pub fn first_missing_path(paths: &Vec<String>, exists: &Vec<bool>) -> (res: Option<usize>)
    requires
        paths.len() == exists.len(),
    ensures
        match res {
            Some(i) => {
                &&& i < paths.len()
                &&& !exists[i as int]
                &&& !names_current_dir(paths[i as int]@)
                &&& forall|j: int|
                    0 <= j < i ==> exists[j] || names_current_dir(#[trigger] paths[j]@)
            },
            None => forall|j: int|
                0 <= j < paths.len() ==> exists[j] || names_current_dir(#[trigger] paths[j]@),
        },
{
    let mut is_default: Vec<bool> = Vec::new();
    let mut i: usize = 0;
    while i < paths.len()
        invariant
            i <= paths.len(),
            is_default@.len() == i,
            forall|j: int| 0 <= j < i ==> is_default@[j] == names_current_dir(#[trigger] paths[j]@),
        decreases paths.len() - i,
    {
        is_default.push(same_path(paths[i].as_str(), "."));
        i = i + 1;
    }
    first_missing(exists, &is_default)
}

/// The first path that does not exist and is not the default path:
/// `exists[i]` tells whether path `i` exists, `is_default[i]` whether it
/// names the current directory, the default path, which never counts as
/// missing.
pub fn first_missing(exists: &Vec<bool>, is_default: &Vec<bool>) -> (res: Option<usize>)
    requires
        exists.len() == is_default.len(),
    ensures
        match res {
            Some(i) => {
                &&& i < exists.len()
                &&& !exists[i as int]
                &&& !is_default[i as int]
                &&& forall|j: int| 0 <= j < i ==> exists[j] || is_default[j]
            },
            None => forall|j: int| 0 <= j < exists.len() ==> exists[j] || is_default[j],
        },
{
    let mut i: usize = 0;
    while i < exists.len()
        invariant
            exists.len() == is_default.len(),
            i <= exists.len(),
            forall|j: int| 0 <= j < i ==> exists[j] || is_default[j],
        decreases exists.len() - i,
    {
        if !exists[i] && !is_default[i] {
            return Some(i);
        }
        i = i + 1;
    }
    None
}

/// Reports whether a buffer holds a NUL byte, the sign of a binary file.
pub fn is_buffer_binary(buffer: &[u8]) -> (res: bool)
    ensures
        res == buffer@.contains(0u8),
{
    let mut i: usize = 0;
    while i < buffer.len()
        invariant
            i <= buffer.len(),
            forall|j: int| 0 <= j < i ==> buffer@[j] != 0u8,
        decreases buffer.len() - i,
    {
        if buffer[i] == 0 {
            return true;
        }
        i = i + 1;
    }
    false
}

} // verus!
