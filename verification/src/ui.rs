use vstd::prelude::*;

use crate::args::Args;
use crate::stats::{ScanCounts, ScanStats};

verus! {

/// What the end of a scan of files is reported as.
pub enum Summary {
    /// Some path could not be scanned: the scan failed.
    ScanErrors,
    /// Gremlins were found and left in place: the scan failed.
    GremlinsLeft { gremlins: usize, files: usize },
    /// Gremlins were found and fixed; the scan still fails, since gremlins
    /// were found.
    GremlinsFixed { gremlins: usize, files: usize },
    /// No gremlin was found; `announce` asks to say so (in verbose mode).
    Clean { announce: bool },
}

/// The summary of a scan with the given counters and options.
pub open spec fn summary_of(counts: ScanCounts, write: bool, verbose: bool) -> Summary {
    if counts.errors > 0 {
        Summary::ScanErrors
    } else if counts.total_gremlins > 0 {
        if write {
            Summary::GremlinsFixed {
                gremlins: counts.total_gremlins,
                files: counts.files_with_gremlins,
            }
        } else {
            Summary::GremlinsLeft {
                gremlins: counts.total_gremlins,
                files: counts.files_with_gremlins,
            }
        }
    } else {
        Summary::Clean { announce: verbose }
    }
}

impl Summary {
    /// Whether the scan ends in success: only a clean scan does.
    pub open spec fn succeeds(self) -> bool {
        self is Clean
    }

    /// Whether the scan ends in success (exit code 0) or not (exit code 1).
    pub fn is_success(&self) -> (res: bool)
        ensures
            res == self.succeeds(),
    {
        match self {
            Summary::Clean { .. } => true,
            _ => false,
        }
    }
}

/// Decides how the end of a scan of files is reported: errors first, then
/// gremlins (fixed when writing), else a clean scan.
pub fn summarize(stats: &ScanStats, args: &Args) -> (res: Summary)
    ensures
        res == summary_of(stats@, args.write, args.verbose),
{
    let total_gremlins: usize = stats.get_total_gremlins();
    let errors: usize = stats.get_errors();
    if errors > 0 {
        return Summary::ScanErrors;
    }
    if total_gremlins > 0 {
        let files: usize = stats.get_files_with_gremlins();
        if !args.write {
            return Summary::GremlinsLeft { gremlins: total_gremlins, files };
        } else {
            return Summary::GremlinsFixed { gremlins: total_gremlins, files };
        }
    }
    Summary::Clean { announce: args.verbose }
}

/// Whether a scan of standard input ends in success: only when it met no
/// gremlin and no error.
pub fn stdin_scan_succeeded(stats: &ScanStats) -> (res: bool)
    ensures
        res == (stats@.total_gremlins == 0 && stats@.errors == 0),
{
    !(stats.get_total_gremlins() > 0 || stats.get_errors() > 0)
}

/// A scan of files succeeds exactly when it met no error and found no
/// gremlin, whether or not it fixes what it finds; a scan of standard input
/// ends the same way.
pub proof fn lemma_exit_status(counts: ScanCounts, write: bool, verbose: bool)
    ensures
        summary_of(counts, write, verbose).succeeds() <==> (counts.errors == 0
            && counts.total_gremlins == 0),
{
}

/// The summary by case: any error makes the scan one with errors; with no
/// error and some gremlins, the summary says they were fixed exactly when
/// writing was asked for (whatever the verbosity) and carries the gremlin and
/// dirty-file counters; with neither, the scan is clean and announced exactly
/// in verbose mode.
pub proof fn lemma_summary_cases(counts: ScanCounts, write: bool, verbose: bool)
    ensures
        counts.errors > 0 ==> summary_of(counts, write, verbose) is ScanErrors,
        counts.errors == 0 && counts.total_gremlins > 0 ==> {
            &&& (summary_of(counts, write, verbose) is GremlinsFixed) <==> write
            &&& (summary_of(counts, write, verbose) is GremlinsLeft) <==> !write
            &&& match summary_of(counts, write, verbose) {
                Summary::GremlinsFixed { gremlins, files } | Summary::GremlinsLeft {
                    gremlins,
                    files,
                } => gremlins == counts.total_gremlins && files == counts.files_with_gremlins,
                _ => false,
            }
        },
        counts.errors == 0 && counts.total_gremlins == 0 ==> summary_of(counts, write, verbose)
            == (Summary::Clean { announce: verbose }),
{
}

} // verus!
