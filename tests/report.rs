use trailing_newline::{
    header, on_entry, outcome_of, EntryStep, Kind, Outcome, Reporter, RunCounters, StatKind,
};

fn feed(reporter: &mut Reporter, outcome: Outcome) -> bool {
    assert!(reporter.has_room());
    reporter.receive(&outcome)
}

#[test]
fn outcome_of_maps_each_result() {
    assert!(matches!(outcome_of("a".to_string(), Ok(true)), Outcome::Updated(p) if p == "a"));
    assert!(matches!(outcome_of("b".to_string(), Ok(false)), Outcome::UpToDate(p) if p == "b"));
    match outcome_of("c".to_string(), Err("permission denied".to_string())) {
        Outcome::FileError(p, e) => {
            assert_eq!(p, "c");
            assert_eq!(e, "permission denied");
        }
        other => panic!("unexpected {:?}", other),
    }
}

#[test]
fn total_counts_files_but_not_traversal_errors() {
    let mut reporter = Reporter::new(false, false);
    feed(&mut reporter, Outcome::Updated("a".to_string()));
    feed(&mut reporter, Outcome::UpToDate("b".to_string()));
    feed(&mut reporter, Outcome::UpToDate("c".to_string()));
    feed(&mut reporter, Outcome::FileError("d".to_string(), "denied".to_string()));
    feed(&mut reporter, Outcome::UnknownError("unreadable dir".to_string()));
    let counters = reporter.counters();
    assert_eq!(counters.total(), 4);
    assert_eq!(counters.updated(), 1);
    assert_eq!(counters.errors(), 2);
}

#[test]
fn updates_alone_never_fail() {
    let mut reporter = Reporter::new(false, false);
    for i in 0..100 {
        feed(&mut reporter, Outcome::Updated(format!("f{}", i)));
    }
    assert!(!reporter.failed());
    assert_eq!(reporter.counters().updated(), 100);
}

#[test]
fn any_error_fails_the_run() {
    let mut reporter = Reporter::new(false, false);
    feed(&mut reporter, Outcome::UpToDate("a".to_string()));
    assert!(!reporter.failed());
    feed(&mut reporter, Outcome::UnknownError("loop".to_string()));
    assert!(reporter.failed());

    let mut other = Reporter::new(true, false);
    feed(&mut other, Outcome::FileError("x".to_string(), "denied".to_string()));
    assert!(other.failed());
}

#[test]
fn unreadable_file_among_siblings() {
    let mut reporter = Reporter::new(false, false);
    let denied = outcome_of("locked.txt".to_string(), Err("Permission denied (os error 13)".to_string()));
    assert_eq!(denied.kind(), Kind::FileError);
    assert!(feed(&mut reporter, denied));
    feed(&mut reporter, outcome_of("ok.txt".to_string(), Ok(false)));
    feed(&mut reporter, outcome_of("fixed.txt".to_string(), Ok(true)));
    assert!(reporter.failed());
    assert_eq!(reporter.counters().total(), 3);
    assert_eq!(reporter.counters().updated(), 1);
    assert_eq!(reporter.counters().errors(), 1);
}

#[test]
fn up_to_date_is_shown_only_when_listing() {
    let mut quiet = Reporter::new(false, false);
    assert!(!feed(&mut quiet, Outcome::UpToDate("a".to_string())));
    assert!(feed(&mut quiet, Outcome::Updated("b".to_string())));
    assert!(feed(&mut quiet, Outcome::FileError("c".to_string(), "e".to_string())));
    assert!(feed(&mut quiet, Outcome::UnknownError("e".to_string())));
    let mut listing = Reporter::new(false, true);
    assert!(feed(&mut listing, Outcome::UpToDate("a".to_string())));
}

#[test]
fn headers_by_kind_and_mode() {
    assert_eq!(header(Kind::Updated, false), Some("updated"));
    assert_eq!(header(Kind::Updated, true), Some("to update"));
    assert_eq!(header(Kind::UpToDate, false), Some("up to date"));
    assert_eq!(header(Kind::FileError, true), Some("error"));
    assert_eq!(header(Kind::UnknownError, false), None);
}

#[test]
fn summary_without_errors() {
    let mut reporter = Reporter::new(false, false);
    feed(&mut reporter, Outcome::Updated("a".to_string()));
    feed(&mut reporter, Outcome::UpToDate("b".to_string()));
    let stats = reporter.summary();
    assert_eq!(stats.len(), 2);
    assert_eq!(stats[0].kind, StatKind::TotalFiles);
    assert_eq!(stats[0].value, 2);
    assert_eq!(stats[1].kind, StatKind::UpdatedFiles);
    assert_eq!(stats[1].value, 1);
    assert_eq!(stats[0].kind.label(), "total files");
    assert_eq!(stats[1].kind.label(), "updated files");
}

#[test]
fn summary_of_dry_run_with_errors() {
    let mut reporter = Reporter::new(true, false);
    feed(&mut reporter, Outcome::Updated("a".to_string()));
    feed(&mut reporter, Outcome::UnknownError("e".to_string()));
    let stats = reporter.summary();
    assert_eq!(stats.len(), 3);
    assert_eq!(stats[0].value, 1);
    assert_eq!(stats[1].kind, StatKind::FilesToUpdate);
    assert_eq!(stats[1].kind.label(), "files to be updated");
    assert_eq!(stats[1].value, 1);
    assert_eq!(stats[2].kind, StatKind::ErrorCount);
    assert_eq!(stats[2].kind.label(), "error count");
    assert_eq!(stats[2].value, 1);
}

#[test]
fn counters_record_each_kind() {
    let mut counters = RunCounters::new();
    assert_eq!((counters.total(), counters.updated(), counters.errors()), (0, 0, 0));
    counters.record(Kind::Updated);
    counters.record(Kind::UpToDate);
    counters.record(Kind::FileError);
    counters.record(Kind::UnknownError);
    assert_eq!((counters.total(), counters.updated(), counters.errors()), (3, 1, 2));
    assert!(counters.failed());
    assert!(counters.has_room());
}

#[test]
fn entries_are_dispatched_by_kind() {
    assert!(matches!(on_entry(Ok(true)), EntryStep::Inspect));
    assert!(matches!(on_entry(Ok(false)), EntryStep::Skip));
    match on_entry(Err("cannot read dir".to_string())) {
        EntryStep::Report(Outcome::UnknownError(e)) => assert_eq!(e, "cannot read dir"),
        other => panic!("unexpected {:?}", other),
    }
}
