use vstd::prelude::*;

use crate::processor::ScanEvent;

verus! {

/// The counters of a scan, as plain values.
pub struct ScanCounts {
    pub total_files: usize,
    pub files_with_gremlins: usize,
    pub total_gremlins: usize,
    pub errors: usize,
}

/// `x + y`, wrapping around at the bound of `usize` (as the counters do).
pub open spec fn wrapping_sum(x: usize, y: usize) -> usize {
    vstd::wrapping::usize_specs::wrapping_add(x, y)
}

impl ScanCounts {
    /// All counters at zero.
    pub open spec fn zero() -> ScanCounts {
        ScanCounts { total_files: 0, files_with_gremlins: 0, total_gremlins: 0, errors: 0 }
    }

    /// The counters after one more file was scanned.
    pub open spec fn with_file(self) -> ScanCounts {
        ScanCounts {
            total_files: wrapping_sum(self.total_files, 1),
            files_with_gremlins: self.files_with_gremlins,
            total_gremlins: self.total_gremlins,
            errors: self.errors,
        }
    }

    /// The counters after one more error.
    pub open spec fn with_error(self) -> ScanCounts {
        ScanCounts {
            total_files: self.total_files,
            files_with_gremlins: self.files_with_gremlins,
            total_gremlins: self.total_gremlins,
            errors: wrapping_sum(self.errors, 1),
        }
    }

    /// The counters after a file with `count` gremlins: a file without
    /// gremlins changes nothing.
    pub open spec fn with_gremlins(self, count: usize) -> ScanCounts {
        if count > 0 {
            ScanCounts {
                total_files: self.total_files,
                files_with_gremlins: wrapping_sum(self.files_with_gremlins, 1),
                total_gremlins: wrapping_sum(self.total_gremlins, count),
                errors: self.errors,
            }
        } else {
            self
        }
    }

    /// The counters after an event of a scan: an error counts as an error; a
    /// clean, binary or dirty file counts as a scanned file, a dirty one with
    /// its gremlins too; a warning counts for nothing.
    pub open spec fn after(self, event: ScanEvent) -> ScanCounts {
        match event {
            ScanEvent::Error { .. } => self.with_error(),
            ScanEvent::Warning { .. } => self,
            ScanEvent::GremlinsFound { gremlins, .. } => self.with_file().with_gremlins(
                gremlins.len(),
            ),
            _ => self.with_file(),
        }
    }
}

/// The counters of a scan: files scanned, files with gremlins, gremlins
/// found, and errors met.
#[derive(Debug)]
pub struct ScanStats {
    total_files: usize,
    files_with_gremlins: usize,
    total_gremlins: usize,
    errors: usize,
}

impl View for ScanStats {
    type V = ScanCounts;

    closed spec fn view(&self) -> ScanCounts {
        ScanCounts {
            total_files: self.total_files,
            files_with_gremlins: self.files_with_gremlins,
            total_gremlins: self.total_gremlins,
            errors: self.errors,
        }
    }
}

impl Default for ScanStats {
    fn default() -> (res: Self)
        ensures
            res@ == ScanCounts::zero(),
    {
        ScanStats { total_files: 0, files_with_gremlins: 0, total_gremlins: 0, errors: 0 }
    }
}

impl ScanStats {
    /// Counts one more scanned file.
    pub fn inc_total_files(&mut self)
        ensures
            final(self)@ == old(self)@.with_file(),
    {
        self.total_files = self.total_files.wrapping_add(1);
    }

    /// Counts one more error.
    pub fn inc_errors(&mut self)
        ensures
            final(self)@ == old(self)@.with_error(),
    {
        self.errors = self.errors.wrapping_add(1);
    }

    /// Counts a file with `count` gremlins.
    pub fn add_gremlins(&mut self, count: usize)
        ensures
            final(self)@ == old(self)@.with_gremlins(count),
    {
        if count > 0 {
            self.files_with_gremlins = self.files_with_gremlins.wrapping_add(1);
            self.total_gremlins = self.total_gremlins.wrapping_add(count);
        }
    }

    /// The number of gremlins found.
    pub fn get_total_gremlins(&self) -> (res: usize)
        ensures
            res == self@.total_gremlins,
    {
        self.total_gremlins
    }

    /// The number of files with gremlins.
    pub fn get_files_with_gremlins(&self) -> (res: usize)
        ensures
            res == self@.files_with_gremlins,
    {
        self.files_with_gremlins
    }

    /// The number of errors met.
    pub fn get_errors(&self) -> (res: usize)
        ensures
            res == self@.errors,
    {
        self.errors
    }

    /// The number of files scanned.
    pub fn get_total_files(&self) -> (res: usize)
        ensures
            res == self@.total_files,
    {
        self.total_files
    }

    /// Counts an event of a scan.
    pub fn record(&mut self, event: &ScanEvent)
        ensures
            final(self)@ == old(self)@.after(*event),
    {
        match event {
            ScanEvent::Error { .. } => self.inc_errors(),
            ScanEvent::Warning { .. } => {},
            ScanEvent::GremlinsFound { gremlins, .. } => {
                self.inc_total_files();
                self.add_gremlins(gremlins.len());
            },
            _ => self.inc_total_files(),
        }
    }
}

/// A file without gremlins leaves the counters as they were.
pub proof fn lemma_no_gremlins_no_change(counts: ScanCounts)
    ensures
        counts.with_gremlins(0) == counts,
{
}

/// Every file counted as dirty brings at least one gremlin, so there are
/// never more dirty files than gremlins, as long as the gremlin counter does
/// not wrap around.
pub proof fn lemma_dirty_files_bounded(counts: ScanCounts, count: usize)
    requires
        counts.files_with_gremlins <= counts.total_gremlins,
        counts.total_gremlins + count <= usize::MAX,
    ensures
        counts.with_gremlins(count).files_with_gremlins <= counts.with_gremlins(count).total_gremlins,
{
}

/// Without wrap-around, the counters only grow, and the gremlin counter
/// grows by exactly the gremlins of the event.
pub proof fn lemma_counters_grow(counts: ScanCounts, event: ScanEvent)
    requires
        counts.total_files < usize::MAX,
        counts.files_with_gremlins < usize::MAX,
        counts.errors < usize::MAX,
        event matches ScanEvent::GremlinsFound { gremlins, .. } ==> counts.total_gremlins
            + gremlins.len() <= usize::MAX,
    ensures
        counts.after(event).total_files >= counts.total_files,
        counts.after(event).files_with_gremlins >= counts.files_with_gremlins,
        counts.after(event).errors >= counts.errors,
        counts.after(event).total_gremlins == counts.total_gremlins + match event {
            ScanEvent::GremlinsFound { gremlins, .. } => gremlins.len() as int,
            _ => 0,
        },
{
}

/// One call of a counter method of `ScanStats`: `inc_total_files`,
/// `inc_errors`, or `add_gremlins` with its count.
pub enum CounterCall {
    File,
    Error,
    Gremlins(usize),
}

impl ScanCounts {
    /// The counters after one call.
    pub open spec fn step(self, call: CounterCall) -> ScanCounts {
        match call {
            CounterCall::File => self.with_file(),
            CounterCall::Error => self.with_error(),
            CounterCall::Gremlins(count) => self.with_gremlins(count),
        }
    }
}

/// The counters after a sequence of calls, in order.
pub open spec fn apply_calls(start: ScanCounts, calls: Seq<CounterCall>) -> ScanCounts
    decreases calls.len(),
{
    if calls.len() == 0 {
        start
    } else {
        apply_calls(start, calls.drop_last()).step(calls.last())
    }
}

/// The number of `inc_total_files` calls.
pub open spec fn file_calls(calls: Seq<CounterCall>) -> nat
    decreases calls.len(),
{
    if calls.len() == 0 {
        0
    } else {
        file_calls(calls.drop_last()) + if calls.last() is File { 1nat } else { 0nat }
    }
}

/// The number of `inc_errors` calls.
pub open spec fn error_calls(calls: Seq<CounterCall>) -> nat
    decreases calls.len(),
{
    if calls.len() == 0 {
        0
    } else {
        error_calls(calls.drop_last()) + if calls.last() is Error { 1nat } else { 0nat }
    }
}

/// The sum of the counts given to `add_gremlins`.
pub open spec fn gremlins_added(calls: Seq<CounterCall>) -> nat
    decreases calls.len(),
{
    if calls.len() == 0 {
        0
    } else {
        gremlins_added(calls.drop_last()) + match calls.last() {
            CounterCall::Gremlins(count) => count as nat,
            _ => 0nat,
        }
    }
}

/// The number of `add_gremlins` calls with a count above zero.
pub open spec fn dirty_calls(calls: Seq<CounterCall>) -> nat
    decreases calls.len(),
{
    if calls.len() == 0 {
        0
    } else {
        dirty_calls(calls.drop_last()) + match calls.last() {
            CounterCall::Gremlins(count) => if count > 0 { 1nat } else { 0nat },
            _ => 0nat,
        }
    }
}

/// Every call that counts a dirty file adds at least one gremlin, and only
/// such calls add gremlins.
pub proof fn lemma_dirty_calls_bounded(calls: Seq<CounterCall>)
    ensures
        dirty_calls(calls) <= gremlins_added(calls),
        dirty_calls(calls) == 0 <==> gremlins_added(calls) == 0,
    decreases calls.len(),
{
    if calls.len() > 0 {
        lemma_dirty_calls_bounded(calls.drop_last());
    }
}

/// Starting from zero, as long as no counter wraps around, each counter
/// tallies its calls: the scanned files count the `inc_total_files` calls,
/// the errors count the `inc_errors` calls, the gremlins are the sum of the
/// counts given to `add_gremlins`, and the dirty files count the
/// `add_gremlins` calls with a count above zero.
pub proof fn lemma_counters_tally(calls: Seq<CounterCall>)
    requires
        file_calls(calls) <= usize::MAX,
        error_calls(calls) <= usize::MAX,
        gremlins_added(calls) <= usize::MAX,
    ensures
        apply_calls(ScanCounts::zero(), calls).total_files == file_calls(calls),
        apply_calls(ScanCounts::zero(), calls).errors == error_calls(calls),
        apply_calls(ScanCounts::zero(), calls).total_gremlins == gremlins_added(calls),
        apply_calls(ScanCounts::zero(), calls).files_with_gremlins == dirty_calls(calls),
    decreases calls.len(),
{
    lemma_dirty_calls_bounded(calls);
    if calls.len() > 0 {
        lemma_dirty_calls_bounded(calls.drop_last());
        lemma_counters_tally(calls.drop_last());
    }
}

/// Starting from zero and without wrap-around, there are never more dirty
/// files than gremlins, and there are dirty files exactly when there are
/// gremlins.
pub proof fn lemma_dirty_files_track_gremlins(calls: Seq<CounterCall>)
    requires
        file_calls(calls) <= usize::MAX,
        error_calls(calls) <= usize::MAX,
        gremlins_added(calls) <= usize::MAX,
    ensures
        apply_calls(ScanCounts::zero(), calls).files_with_gremlins <= apply_calls(
            ScanCounts::zero(),
            calls,
        ).total_gremlins,
        apply_calls(ScanCounts::zero(), calls).files_with_gremlins == 0 <==> apply_calls(
            ScanCounts::zero(),
            calls,
        ).total_gremlins == 0,
{
    lemma_counters_tally(calls);
    lemma_dirty_calls_bounded(calls);
}

/// What each event does to the counters, without wrap-around: every error
/// counts as exactly one error, whatever its path and message; a warning
/// changes nothing; a clean or binary file counts one file; a file with `n`
/// gremlins counts one file, `n` gremlins, and one dirty file when `n > 0`.
/// No event touches a counter it does not concern.
pub proof fn lemma_event_effects(counts: ScanCounts, event: ScanEvent)
    requires
        counts.total_files < usize::MAX,
        counts.files_with_gremlins < usize::MAX,
        counts.errors < usize::MAX,
        event matches ScanEvent::GremlinsFound { gremlins, .. } ==> counts.total_gremlins
            + gremlins.len() <= usize::MAX,
    ensures
        event is Error ==> {
            &&& counts.after(event).errors == counts.errors + 1
            &&& counts.after(event).total_files == counts.total_files
            &&& counts.after(event).files_with_gremlins == counts.files_with_gremlins
            &&& counts.after(event).total_gremlins == counts.total_gremlins
        },
        event is Warning ==> counts.after(event) == counts,
        (event is Clean || event is SkippedBinary) ==> {
            &&& counts.after(event).total_files == counts.total_files + 1
            &&& counts.after(event).errors == counts.errors
            &&& counts.after(event).files_with_gremlins == counts.files_with_gremlins
            &&& counts.after(event).total_gremlins == counts.total_gremlins
        },
        event matches ScanEvent::GremlinsFound { gremlins, .. } ==> {
            &&& counts.after(event).total_files == counts.total_files + 1
            &&& counts.after(event).errors == counts.errors
            &&& counts.after(event).total_gremlins == counts.total_gremlins + gremlins.len()
            &&& counts.after(event).files_with_gremlins == counts.files_with_gremlins + if gremlins.len()
                > 0 {
                1int
            } else {
                0int
            }
        },
{
}

} // verus!
