use gremlh::args::Args;
use gremlh::processor::{first_missing, first_missing_path, is_buffer_binary, ScanEvent};
use gremlh::scanner::{scan_line, GremlinLoc};
use gremlh::stats::ScanStats;
use gremlh::ui::{stdin_scan_succeeded, summarize, Summary};

fn args(write: bool, verbose: bool) -> Args {
    Args {
        paths: vec![".".to_string()],
        write,
        verbose,
        no_ignore: false,
        hidden: false,
        threads: None,
        is_stdin: false,
    }
}

fn dirty(path: &str, text: &str) -> ScanEvent {
    let (_, gremlins) = scan_line(text, 1);
    ScanEvent::for_scanned_file(path.to_string(), gremlins)
}

#[test]
fn stats_start_at_zero() {
    let s = ScanStats::default();
    assert_eq!(s.get_total_gremlins(), 0);
    assert_eq!(s.get_files_with_gremlins(), 0);
    assert_eq!(s.get_errors(), 0);
    assert_eq!(s.get_total_files(), 0);
}

#[test]
fn stats_add_gremlins() {
    let mut s = ScanStats::default();
    s.add_gremlins(0);
    assert_eq!(s.get_files_with_gremlins(), 0);
    assert_eq!(s.get_total_gremlins(), 0);
    s.add_gremlins(2);
    s.add_gremlins(3);
    assert_eq!(s.get_files_with_gremlins(), 2);
    assert_eq!(s.get_total_gremlins(), 5);
    s.inc_errors();
    s.inc_total_files();
    assert_eq!(s.get_errors(), 1);
    assert_eq!(s.get_total_files(), 1);
}

#[test]
fn stats_wrap_around() {
    let mut s = ScanStats::default();
    s.add_gremlins(usize::MAX);
    s.add_gremlins(2);
    assert_eq!(s.get_total_gremlins(), 1);
    assert_eq!(s.get_files_with_gremlins(), 2);
}

#[test]
fn stats_record_events() {
    let mut s = ScanStats::default();
    s.record(&dirty("file1.txt", "File1\u{200B}Line1 \u{200B}"));
    s.record(&dirty("file2.txt", "File2\u{200B}Line1"));
    s.record(&dirty("clean.txt", "Hello"));
    s.record(&ScanEvent::SkippedBinary { path: "data.bin".to_string() });
    s.record(&ScanEvent::Warning { path: "x".to_string(), message: "w".to_string() });
    s.record(&ScanEvent::Error { path: "?".to_string(), message: "e".to_string() });
    assert_eq!(s.get_total_files(), 4);
    assert_eq!(s.get_files_with_gremlins(), 2);
    assert_eq!(s.get_total_gremlins(), 3);
    assert_eq!(s.get_errors(), 1);
}

#[test]
fn scanned_file_events() {
    match dirty("a", "clean") {
        ScanEvent::Clean { path } => assert_eq!(path, "a"),
        _ => panic!("expected a clean event"),
    }
    match dirty("b", "x\u{200B}") {
        ScanEvent::GremlinsFound { path, gremlins } => {
            assert_eq!(path, "b");
            assert_eq!(gremlins.len(), 1);
        }
        _ => panic!("expected gremlins"),
    }
}

#[test]
fn events_shown_by_verbosity() {
    let g = vec![GremlinLoc { line: 1, col: 1, char_found: '\u{7}', description: "d" }];
    let found = ScanEvent::GremlinsFound { path: "p".to_string(), gremlins: g };
    let err = ScanEvent::Error { path: "p".to_string(), message: "m".to_string() };
    let clean = ScanEvent::Clean { path: "p".to_string() };
    let bin = ScanEvent::SkippedBinary { path: "p".to_string() };
    let warn = ScanEvent::Warning { path: "p".to_string(), message: "m".to_string() };
    assert!(found.is_shown(false) && err.is_shown(false));
    assert!(!clean.is_shown(false) && !bin.is_shown(false) && !warn.is_shown(false));
    assert!(clean.is_shown(true) && bin.is_shown(true) && warn.is_shown(true));
}

#[test]
fn binary_detection() {
    let mut content = Vec::new();
    content.extend_from_slice(b"DATA");
    content.push(0x00);
    content.extend_from_slice("BINARY\u{200B}".as_bytes());
    assert!(is_buffer_binary(&content));
    assert!(!is_buffer_binary(b"Hello"));
    assert!(!is_buffer_binary(b""));
}

#[test]
fn summary_of_gremlins_without_write_fails() {
    let mut s = ScanStats::default();
    s.add_gremlins(2);
    let summary = summarize(&s, &args(false, false));
    assert!(matches!(summary, Summary::GremlinsLeft { gremlins: 2, files: 1 }));
    assert!(!summary.is_success());
}

#[test]
fn summary_of_fixed_gremlins_still_fails() {
    let mut s = ScanStats::default();
    s.add_gremlins(5);
    s.add_gremlins(1);
    let summary = summarize(&s, &args(true, false));
    assert!(matches!(summary, Summary::GremlinsFixed { gremlins: 6, files: 2 }));
    assert!(!summary.is_success());
}

#[test]
fn summary_of_errors_fails() {
    let mut s = ScanStats::default();
    s.add_gremlins(1);
    s.inc_errors();
    let summary = summarize(&s, &args(true, true));
    assert!(matches!(summary, Summary::ScanErrors));
    assert!(!summary.is_success());
}

#[test]
fn summary_of_clean_scan() {
    let s = ScanStats::default();
    let quiet = summarize(&s, &args(false, false));
    assert!(matches!(quiet, Summary::Clean { announce: false }));
    assert!(quiet.is_success());
    let loud = summarize(&s, &args(false, true));
    assert!(matches!(loud, Summary::Clean { announce: true }));
}

#[test]
fn stdin_scan_outcome() {
    let mut s = ScanStats::default();
    assert!(stdin_scan_succeeded(&s));
    s.add_gremlins(1);
    assert!(!stdin_scan_succeeded(&s));
    let mut e = ScanStats::default();
    e.inc_errors();
    assert!(!stdin_scan_succeeded(&e));
}

#[test]
fn finalize_selects_stdin() {
    let mut a = args(false, false);
    a.finalize(false);
    assert!(a.is_stdin);
    let mut b = args(false, false);
    b.finalize(true);
    assert!(!b.is_stdin);
    let mut c = args(false, false);
    c.paths = vec!["src".to_string()];
    c.finalize(false);
    assert!(!c.is_stdin);
    let mut d = args(false, false);
    d.paths = vec![".".to_string(), "src".to_string()];
    d.finalize(false);
    assert!(!d.is_stdin);
    let mut e = args(true, true);
    e.paths = vec!["./".to_string()];
    e.finalize(false);
    assert!(e.is_stdin);
    assert!(e.write && e.verbose);
}

#[test]
fn finalize_default_path_with_piped_stdin() {
    let mut a = args(false, true);
    a.finalize(false);
    assert!(a.is_stdin);
    assert_eq!(a.paths, vec![".".to_string()]);
    assert!(a.verbose && !a.write && !a.no_ignore && !a.hidden && a.threads.is_none());
}

#[test]
fn first_missing_path_skips_default() {
    let paths = vec![".".to_string(), "src".to_string(), "i_do_not_exist_12345".to_string(), "x".to_string()];
    assert_eq!(first_missing_path(&paths, &vec![false, true, false, false]), Some(2));
    assert_eq!(first_missing_path(&paths, &vec![false, true, true, true]), None);
    assert_eq!(first_missing_path(&vec![], &vec![]), None);
    let one = vec!["i_do_not_exist_12345".to_string()];
    assert_eq!(first_missing_path(&one, &vec![false]), Some(0));
}

#[test]
fn first_missing_decides_on_flags() {
    assert_eq!(first_missing(&vec![true, false, false], &vec![false, true, false]), Some(2));
    assert_eq!(first_missing(&vec![false], &vec![false]), Some(0));
    assert_eq!(first_missing(&vec![false, true], &vec![true, false]), None);
    assert_eq!(first_missing(&vec![], &vec![]), None);
}

#[test]
fn settle_input_decides_on_flags() {
    let mut a = args(false, false);
    a.settle_input(true, false);
    assert!(a.is_stdin);
    let mut b = args(false, false);
    b.settle_input(false, false);
    assert!(!b.is_stdin);
    let mut c = args(false, false);
    c.settle_input(true, true);
    assert!(!c.is_stdin);
    let mut d = args(false, false);
    d.paths.push("src".to_string());
    d.settle_input(true, false);
    assert!(!d.is_stdin);
}

#[test]
fn counters_tally_their_calls() {
    let mut s = ScanStats::default();
    let counts = [3usize, 0, 1, 0, 7];
    for c in counts {
        s.inc_total_files();
        s.add_gremlins(c);
    }
    s.inc_errors();
    s.inc_errors();
    assert_eq!(s.get_total_files(), 5);
    assert_eq!(s.get_total_gremlins(), 11);
    assert_eq!(s.get_files_with_gremlins(), 3);
    assert_eq!(s.get_errors(), 2);
    assert!(s.get_files_with_gremlins() <= s.get_total_gremlins());
}
