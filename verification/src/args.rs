use vstd::prelude::*;

verus! {

/// The command line of a scan.
pub struct Args {
    /// The paths to scan (the current directory, `.`, by default).
    pub paths: Vec<String>,
    /// Overwrite files in place with fixed content.
    pub write: bool,
    /// Show detailed processing information.
    pub verbose: bool,
    /// Scan files that `.gitignore` excludes too.
    pub no_ignore: bool,
    /// Scan hidden files and directories too.
    pub hidden: bool,
    /// The number of threads to walk with (by default, the number of CPUs).
    pub threads: Option<usize>,
    /// Read the text from standard input and write it fixed to standard output.
    pub is_stdin: bool,
}

/// Whether two paths are equal as `std::path::Path` values (component by
/// component).
pub uninterp spec fn paths_equal(a: Seq<char>, b: Seq<char>) -> bool;

/// Compares two paths as `std::path::Path` values, which are equal when their
/// components are. States that the answer depends on the two paths alone and
/// that a path equals itself; which differently spelled paths (such as `.`
/// and `./`) are equal is left to `Path`.
#[verifier::external_body]
pub(crate) fn same_path(a: &str, b: &str) -> (res: bool)
    ensures
        res == paths_equal(a@, b@),
        a@ == b@ ==> res,
{
    std::path::Path::new(a) == std::path::Path::new(b)
}

/// Whether a path names the current directory as the default path `.` does.
pub open spec fn names_current_dir(path: Seq<char>) -> bool {
    paths_equal(path, "."@)
}

/// Reading from standard input is chosen when the only path is the current
/// directory (the default) and standard input is not a terminal.
pub open spec fn reads_stdin(paths: Seq<String>, stdin_is_terminal: bool) -> bool {
    paths.len() == 1 && names_current_dir(paths[0]@) && !stdin_is_terminal
}

impl Args {
    /// Settles the arguments once parsed: marks a scan of standard input when
    /// no path but the default one was given and standard input is not a
    /// terminal. Nothing else changes.
    pub fn finalize(&mut self, stdin_is_terminal: bool)
        ensures
            final(self).paths@ == old(self).paths@,
            final(self).write == old(self).write,
            final(self).verbose == old(self).verbose,
            final(self).no_ignore == old(self).no_ignore,
            final(self).hidden == old(self).hidden,
            final(self).threads == old(self).threads,
            final(self).is_stdin == (old(self).is_stdin || reads_stdin(
                old(self).paths@,
                stdin_is_terminal,
            )),
            old(self).paths@.len() == 1 && old(self).paths@[0]@ == "."@ && !stdin_is_terminal
                ==> final(self).is_stdin,
            final(self).is_stdin && !old(self).is_stdin ==> {
                &&& old(self).paths@.len() == 1
                &&& paths_equal(old(self).paths@[0]@, "."@)
                &&& !stdin_is_terminal
            },
            (old(self).paths@.len() != 1 || !paths_equal(old(self).paths@[0]@, "."@)
                || stdin_is_terminal) ==> final(self).is_stdin == old(self).is_stdin,
    {
        let only_current_dir = self.paths.len() == 1 && same_path(self.paths[0].as_str(), ".");
        self.settle_input(only_current_dir, stdin_is_terminal);
    }

    /// Settles the arguments given whether the only path names the current
    /// directory: a scan of standard input is chosen when exactly one path
    /// was given, it names the current directory, and standard input is not
    /// a terminal. Nothing else changes.
    pub fn settle_input(&mut self, only_current_dir: bool, stdin_is_terminal: bool)
        ensures
            final(self).paths@ == old(self).paths@,
            final(self).write == old(self).write,
            final(self).verbose == old(self).verbose,
            final(self).no_ignore == old(self).no_ignore,
            final(self).hidden == old(self).hidden,
            final(self).threads == old(self).threads,
            final(self).is_stdin == (old(self).is_stdin || (old(self).paths@.len() == 1
                && only_current_dir && !stdin_is_terminal)),
    {
        if self.paths.len() == 1 && only_current_dir && !stdin_is_terminal {
            self.is_stdin = true;
        }
    }
}

/// Standard input is read exactly when a single path was given that equals
/// `.` as a `Path` and standard input is not a terminal: any other path (such
/// as `./src`), any other number of paths, or a terminal keeps the scan of
/// the given paths.
pub proof fn lemma_stdin_only_for_current_dir(paths: Seq<String>, stdin_is_terminal: bool)
    ensures
        reads_stdin(paths, stdin_is_terminal) <==> (paths.len() == 1 && paths_equal(
            paths[0]@,
            "."@,
        ) && !stdin_is_terminal),
{
}

} // verus!
