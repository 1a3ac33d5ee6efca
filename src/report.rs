use vstd::prelude::*;

verus! {

/// The four kinds of outcome.
#[derive(Clone, Copy, Debug, PartialEq, Eq, Structural)]
pub enum Kind {
    Updated,
    UpToDate,
    FileError,
    UnknownError,
}

/// The result of inspecting one file, or of one failed traversal step.
#[derive(Debug)]
pub enum Outcome {
    /// The file lacked a terminator; it now has one, or would have.
    Updated(String),
    /// The file is empty or already ends with a terminator.
    UpToDate(String),
    /// Inspecting or completing the file failed: its path and the error.
    FileError(String, String),
    /// The traversal could not produce an entry; no file is known.
    UnknownError(String),
}

impl Outcome {
    pub open spec fn spec_kind(&self) -> Kind {
        match self {
            Outcome::Updated(_) => Kind::Updated,
            Outcome::UpToDate(_) => Kind::UpToDate,
            Outcome::FileError(_, _) => Kind::FileError,
            Outcome::UnknownError(_) => Kind::UnknownError,
        }
    }

    /// The kind of this outcome.
    #[verifier::when_used_as_spec(spec_kind)]
    pub fn kind(&self) -> (r: Kind)
        ensures
            r == self.spec_kind(),
    {
        match self {
            Outcome::Updated(_) => Kind::Updated,
            Outcome::UpToDate(_) => Kind::UpToDate,
            Outcome::FileError(_, _) => Kind::FileError,
            Outcome::UnknownError(_) => Kind::UnknownError,
        }
    }
}

/// Turns the result of inspecting the file at `path` into its outcome:
/// `Ok(true)` when the file was (or would be) modified, `Ok(false)` when it was
/// up to date, `Err` with the error's text when the inspection failed.
pub fn outcome_of(path: String, result: Result<bool, String>) -> (r: Outcome)
    ensures
        match result {
            Ok(true) => r == Outcome::Updated(path),
            Ok(false) => r == Outcome::UpToDate(path),
            Err(e) => r == Outcome::FileError(path, e),
        },
{
    match result {
        Ok(true) => Outcome::Updated(path),
        Ok(false) => Outcome::UpToDate(path),
        Err(e) => Outcome::FileError(path, e),
    }
}

/// What to do with one entry that the traversal produced.
#[derive(Debug)]
pub enum EntryStep {
    /// The entry is a regular file: inspect it, then report its outcome.
    Inspect,
    /// The entry is not a regular file: nothing is reported.
    Skip,
    /// The traversal failed here: report this outcome.
    Report(Outcome),
}

/// Decides what happens to one traversal entry: `Ok(is_file)` for an entry
/// that was produced, `Err` with the error's text where the traversal
/// failed. Every regular file is inspected once, every failure becomes one
/// `UnknownError`, and anything else is skipped.
pub fn on_entry(entry: Result<bool, String>) -> (r: EntryStep)
    ensures
        match entry {
            Ok(true) => r is Inspect,
            Ok(false) => r is Skip,
            Err(e) => r == EntryStep::Report(Outcome::UnknownError(e)),
        },
{
    match entry {
        Ok(true) => EntryStep::Inspect,
        Ok(false) => EntryStep::Skip,
        Err(e) => EntryStep::Report(Outcome::UnknownError(e)),
    }
}

/// The counters of a run, as numbers.
pub struct Tally {
    pub files: nat,
    pub updated: nat,
    pub errors: nat,
}

/// The counters after one more outcome: a file is counted by every outcome
/// that names one, an update by `Updated`, an error by both kinds of error.
pub open spec fn spec_step(t: Tally, kind: Kind) -> Tally {
    Tally {
        files: if kind is UnknownError {
            t.files
        } else {
            t.files + 1
        },
        updated: if kind is Updated {
            t.updated + 1
        } else {
            t.updated
        },
        errors: if kind is FileError || kind is UnknownError {
            t.errors + 1
        } else {
            t.errors
        },
    }
}

/// The counters after the outcomes `s`, received in this order.
pub open spec fn spec_tally(s: Seq<Kind>) -> Tally
    decreases s.len(),
{
    if s.len() == 0 {
        Tally { files: 0, updated: 0, errors: 0 }
    } else {
        spec_step(spec_tally(s.drop_last()), s.last())
    }
}

/// How many of the outcomes `s` are of kind `k`.
pub open spec fn spec_count(s: Seq<Kind>, k: Kind) -> nat
    decreases s.len(),
{
    if s.len() == 0 {
        0
    } else {
        spec_count(s.drop_last(), k) + if s.last() == k {
            1nat
        } else {
            0nat
        }
    }
}

/// Whether a run whose counters are `t` ends with a failure status.
pub open spec fn spec_failed(t: Tally) -> bool {
    t.errors > 0
}

/// The counters of a run: files seen, files updated, errors.
pub struct RunCounters {
    total: u64,
    updated: u64,
    errors: u64,
}

impl RunCounters {
    pub closed spec fn view(&self) -> Tally {
        Tally { files: self.total as nat, updated: self.updated as nat, errors: self.errors as nat }
    }

    /// All counters at zero.
    pub fn new() -> (r: RunCounters)
        ensures
            r@ == spec_tally(Seq::empty()),
    {
        RunCounters { total: 0, updated: 0, errors: 0 }
    }

    /// Whether one more outcome can be counted without overflow.
    pub fn has_room(&self) -> (r: bool)
        ensures
            r == (self@.files < u64::MAX && self@.updated < u64::MAX && self@.errors < u64::MAX),
    {
        self.total < u64::MAX && self.updated < u64::MAX && self.errors < u64::MAX
    }

    /// Counts one outcome of kind `kind`.
    pub fn record(&mut self, kind: Kind)
        requires
            old(self)@.files < u64::MAX,
            old(self)@.updated < u64::MAX,
            old(self)@.errors < u64::MAX,
        ensures
            final(self)@ == spec_step(old(self)@, kind),
    {
        match kind {
            Kind::Updated => {
                self.total = self.total + 1;
                self.updated = self.updated + 1;
            },
            Kind::UpToDate => {
                self.total = self.total + 1;
            },
            Kind::FileError => {
                self.total = self.total + 1;
                self.errors = self.errors + 1;
            },
            Kind::UnknownError => {
                self.errors = self.errors + 1;
            },
        }
    }

    /// Files seen: every outcome that names a file.
    pub fn total(&self) -> (r: u64)
        ensures
            r == self@.files,
    {
        self.total
    }

    /// Files updated, or to be updated in a dry run.
    pub fn updated(&self) -> (r: u64)
        ensures
            r == self@.updated,
    {
        self.updated
    }

    /// Errors, of files and of the traversal.
    pub fn errors(&self) -> (r: u64)
        ensures
            r == self@.errors,
    {
        self.errors
    }

    /// Whether the run is to end with a failure status.
    pub fn failed(&self) -> (r: bool)
        ensures
            r == spec_failed(self@),
    {
        self.errors > 0
    }
}

/// The counters of a run follow from how many outcomes of each kind it
/// received, whatever their order: the tally of the outcomes `s` counts
/// `Updated`, `UpToDate` and `FileError` as files, `Updated` as updates, and
/// both kinds of error as errors.
pub proof fn lemma_tally_counts_kinds(s: Seq<Kind>)
    ensures
        spec_tally(s).files == spec_count(s, Kind::Updated) + spec_count(s, Kind::UpToDate)
            + spec_count(s, Kind::FileError),
        spec_tally(s).updated == spec_count(s, Kind::Updated),
        spec_tally(s).errors == spec_count(s, Kind::FileError) + spec_count(s, Kind::UnknownError),
    decreases s.len(),
{
    if s.len() > 0 {
        lemma_tally_counts_kinds(s.drop_last());
    }
}

/// The number of files seen is the number of `Updated`, `UpToDate` and
/// `FileError` outcomes; traversal errors are not counted as files.
pub proof fn lemma_total_excludes_unknown_errors(s: Seq<Kind>)
    ensures
        spec_tally(s).files == spec_count(s, Kind::Updated) + spec_count(s, Kind::UpToDate)
            + spec_count(s, Kind::FileError),
        spec_tally(s.push(Kind::UnknownError)).files == spec_tally(s).files,
{
    lemma_tally_counts_kinds(s);
    assert(s.push(Kind::UnknownError).drop_last() == s);
}

/// How many outcomes of kind `k` occur in `s` is positive exactly when one of
/// them is of that kind.
pub proof fn lemma_count_positive(s: Seq<Kind>, k: Kind)
    ensures
        (spec_count(s, k) > 0) <==> (exists|i: int| 0 <= i < s.len() && s[i] == k),
    decreases s.len(),
{
    if s.len() > 0 {
        let init = s.drop_last();
        lemma_count_positive(init, k);
        if spec_count(init, k) > 0 {
            let i = choose|i: int| 0 <= i < init.len() && init[i] == k;
            assert(s[i] == k);
        }
        if exists|i: int| 0 <= i < s.len() && s[i] == k {
            let i = choose|i: int| 0 <= i < s.len() && s[i] == k;
            if i < s.len() - 1 {
                assert(init[i] == k);
            }
        }
    }
}

/// A run ends with a failure status exactly when at least one file error or
/// traversal error occurred; updates, however many, never make it fail.
pub proof fn lemma_failure_iff_error(s: Seq<Kind>)
    ensures
        spec_failed(spec_tally(s)) <==> (exists|i: int|
            0 <= i < s.len() && (s[i] == Kind::FileError || s[i] == Kind::UnknownError)),
        spec_failed(spec_tally(s.push(Kind::Updated))) == spec_failed(spec_tally(s)),
{
    lemma_tally_counts_kinds(s);
    lemma_count_positive(s, Kind::FileError);
    lemma_count_positive(s, Kind::UnknownError);
    assert(s.push(Kind::Updated).drop_last() == s);
}

/// What the summary of a run shows on one line.
#[derive(Clone, Copy, Debug, PartialEq, Eq, Structural)]
pub enum StatKind {
    TotalFiles,
    UpdatedFiles,
    FilesToUpdate,
    ErrorCount,
}

impl StatKind {
    /// The label printed before the value.
    pub fn label(&self) -> (r: &'static str)
        ensures
            *self is TotalFiles ==> r@ == "total files"@,
            *self is UpdatedFiles ==> r@ == "updated files"@,
            *self is FilesToUpdate ==> r@ == "files to be updated"@,
            *self is ErrorCount ==> r@ == "error count"@,
    {
        match self {
            StatKind::TotalFiles => "total files",
            StatKind::UpdatedFiles => "updated files",
            StatKind::FilesToUpdate => "files to be updated",
            StatKind::ErrorCount => "error count",
        }
    }
}

/// One line of the summary: what is counted, and how many.
#[derive(Clone, Copy, Debug, PartialEq, Eq, Structural)]
pub struct Stat {
    pub kind: StatKind,
    pub value: u64,
}

/// The header that an outcome is listed under, or `None` for a traversal
/// error, which is printed without one.
pub fn header(kind: Kind, dry_run: bool) -> (r: Option<&'static str>)
    ensures
        (r is None) == (kind is UnknownError),
        kind is Updated && dry_run ==> r->Some_0@ == "to update"@,
        kind is Updated && !dry_run ==> r->Some_0@ == "updated"@,
        kind is UpToDate ==> r->Some_0@ == "up to date"@,
        kind is FileError ==> r->Some_0@ == "error"@,
{
    match kind {
        Kind::Updated => if dry_run {
            Some("to update")
        } else {
            Some("updated")
        },
        Kind::UpToDate => Some("up to date"),
        Kind::FileError => Some("error"),
        Kind::UnknownError => None,
    }
}

/// Whether an outcome of kind `kind` is printed: all are but `UpToDate`,
/// which is printed only when every file is to be listed.
pub open spec fn spec_shown(kind: Kind, list: bool) -> bool {
    !(kind is UpToDate) || list
}

/// Whether some outcome of `s` is an error, of a file or of the traversal.
pub open spec fn spec_any_error(s: Seq<Kind>) -> bool {
    exists|i: int| 0 <= i < s.len() && (s[i] == Kind::FileError || s[i] == Kind::UnknownError)
}

/// The single consumer of outcomes: it counts each one and says whether it
/// is to be printed, and at the end gives the summary and the exit status.
/// Its view is the sequence of the kinds of outcome it received.
pub struct Reporter {
    dry_run: bool,
    list: bool,
    counters: RunCounters,
    received: Ghost<Seq<Kind>>,
}

impl Reporter {
    #[verifier::type_invariant]
    spec fn counts_received(&self) -> bool {
        self.counters@ == spec_tally(self.received@)
    }

    pub closed spec fn spec_dry_run(&self) -> bool {
        self.dry_run
    }

    pub closed spec fn spec_list(&self) -> bool {
        self.list
    }

    pub closed spec fn view(&self) -> Seq<Kind> {
        self.received@
    }

    /// A reporter that has received nothing.
    pub fn new(dry_run: bool, list: bool) -> (r: Reporter)
        ensures
            r@ == Seq::<Kind>::empty(),
            r.spec_dry_run() == dry_run,
            r.spec_list() == list,
    {
        Reporter { dry_run, list, counters: RunCounters::new(), received: Ghost(Seq::empty()) }
    }

    /// Whether one more outcome can be received without overflow.
    pub fn has_room(&self) -> (r: bool)
        ensures
            r == (spec_tally(self@).files < u64::MAX && spec_tally(self@).updated < u64::MAX
                && spec_tally(self@).errors < u64::MAX),
    {
        proof {
            use_type_invariant(self);
        }
        self.counters.has_room()
    }

    /// Counts `outcome` and returns whether it is to be printed.
    pub fn receive(&mut self, outcome: &Outcome) -> (shown: bool)
        requires
            spec_tally(old(self)@).files < u64::MAX,
            spec_tally(old(self)@).updated < u64::MAX,
            spec_tally(old(self)@).errors < u64::MAX,
        ensures
            final(self)@ == old(self)@.push(outcome.kind()),
            final(self).spec_dry_run() == old(self).spec_dry_run(),
            final(self).spec_list() == old(self).spec_list(),
            shown == spec_shown(outcome.kind(), old(self).spec_list()),
    {
        proof {
            use_type_invariant(&*self);
        }
        let kind = outcome.kind();
        let mut counters = RunCounters {
            total: self.counters.total,
            updated: self.counters.updated,
            errors: self.counters.errors,
        };
        counters.record(kind);
        let ghost received = self.received@.push(kind);
        assert(received.drop_last() =~= self.received@);
        *self = Reporter { dry_run: self.dry_run, list: self.list, counters, received: Ghost(received) };
        !matches!(kind, Kind::UpToDate) || self.list
    }

    /// The counters so far: the tally of the outcomes received.
    pub fn counters(&self) -> (r: &RunCounters)
        ensures
            r@ == spec_tally(self@),
    {
        proof {
            use_type_invariant(self);
        }
        &self.counters
    }

    /// The summary: the files seen (the outcomes that name a file), the files
    /// updated (or to be updated, in a dry run), and the number of errors
    /// where there was one.
    pub fn summary(&self) -> (r: Vec<Stat>)
        ensures
            r@.len() == if spec_any_error(self@) {
                3int
            } else {
                2int
            },
            r@[0] == (Stat {
                kind: StatKind::TotalFiles,
                value: (spec_count(self@, Kind::Updated) + spec_count(self@, Kind::UpToDate)
                    + spec_count(self@, Kind::FileError)) as u64,
            }),
            r@[1] == (Stat {
                kind: if self.spec_dry_run() {
                    StatKind::FilesToUpdate
                } else {
                    StatKind::UpdatedFiles
                },
                value: spec_count(self@, Kind::Updated) as u64,
            }),
            spec_any_error(self@) ==> r@[2] == (Stat {
                kind: StatKind::ErrorCount,
                value: (spec_count(self@, Kind::FileError) + spec_count(self@, Kind::UnknownError))
                    as u64,
            }),
    {
        proof {
            use_type_invariant(self);
            lemma_tally_counts_kinds(self@);
            lemma_failure_iff_error(self@);
        }
        let mut stats: Vec<Stat> = Vec::new();
        stats.push(Stat { kind: StatKind::TotalFiles, value: self.counters.total() });
        let kind = if self.dry_run {
            StatKind::FilesToUpdate
        } else {
            StatKind::UpdatedFiles
        };
        stats.push(Stat { kind, value: self.counters.updated() });
        let errors = self.counters.errors();
        if errors > 0 {
            stats.push(Stat { kind: StatKind::ErrorCount, value: errors });
        }
        stats
    }

    /// Whether the run is to end with a failure status: whether any error,
    /// of a file or of the traversal, was received. Updates never count.
    pub fn failed(&self) -> (r: bool)
        ensures
            r == spec_any_error(self@),
    {
        proof {
            use_type_invariant(self);
            lemma_failure_iff_error(self@);
        }
        self.counters.failed()
    }
}

} // verus!
