use gremlh::scanner::{scan_line, GremlinLoc, LineScanner};
use std::borrow::Cow;

fn cols(locs: &[GremlinLoc]) -> Vec<usize> {
    locs.iter().map(|g| g.col).collect()
}

#[test]
fn scan_line_dirty_with_bidi() {
    let (fixed, locs) = scan_line("H\u{200B}ello\u{202E}World!", 1);
    assert_eq!(fixed, "HelloWorld!");
    assert_eq!(locs.len(), 2);
    assert_eq!(locs[0].line, 1);
    assert_eq!(locs[0].col, 2);
    assert_eq!(locs[0].char_found, '\u{200B}');
    assert_eq!(locs[0].description, "Zero Width Space");
    assert_eq!(locs[1].col, 7);
    assert!(locs[1].description.contains("Security Risk!"));
    assert!(locs[1].is_security_risk());
    assert!(!locs[0].is_security_risk());
}

#[test]
fn scan_line_smart_quotes_replaced() {
    let (fixed, locs) = scan_line("\u{201C}Hello\u{201D}", 1);
    assert_eq!(fixed, "\"Hello\"");
    assert_eq!(cols(&locs), vec![1, 7]);
    assert_eq!(locs[0].description, "Smart Double Quote");
}

#[test]
fn scan_line_removal_vs_replacement() {
    let (fixed, locs) = scan_line("\u{FEFF}A\u{200B}B\u{00A0}C\u{037E}", 1);
    assert_eq!(fixed, "AB C;");
    assert_eq!(cols(&locs), vec![1, 3, 5, 7]);
    let descs: Vec<&str> = locs.iter().map(|g| g.description).collect();
    assert_eq!(
        descs,
        vec!["BOM", "Zero Width Space", "NBSP", "Greek Question Mark (;)"]
    );
}

#[test]
fn scan_line_nbsp_becomes_space() {
    let (fixed, locs) = scan_line("H\u{00A0}ello", 1);
    assert_eq!(fixed, "H ello");
    assert_eq!(cols(&locs), vec![2]);
    assert_eq!(locs[0].description, "NBSP");
}

#[test]
fn scan_line_clean_is_unchanged() {
    for line in ["Hello World", "This is clean.", "", "fn main() {}", "tab\there"] {
        let (fixed, locs) = scan_line(line, 3);
        assert_eq!(fixed, line);
        assert!(locs.is_empty());
    }
}

#[test]
fn scan_line_columns_count_characters() {
    let (_, locs) = scan_line("var x = '\u{200B}';", 1);
    assert_eq!(cols(&locs), vec![10]);
    let (_, locs) = scan_line("SECRET=\u{200B}VALUE", 1);
    assert_eq!(cols(&locs), vec![8]);
    let (fixed, locs) = scan_line("key = \"\u{201C}value\u{201D}\"", 1);
    assert_eq!(cols(&locs), vec![8, 14]);
    assert_eq!(fixed, "key = \"\"value\"\"");
    // multi-byte characters before a gremlin count as one column each
    let (_, locs) = scan_line("é\u{3000}x", 1);
    assert_eq!(cols(&locs), vec![2]);
}

#[test]
fn scan_line_keeps_line_number() {
    let (_, locs) = scan_line("a\u{7}b\u{7}", 42);
    assert_eq!(locs.len(), 2);
    assert!(locs.iter().all(|g| g.line == 42));
    assert_eq!(locs[1].col, 4);
}

#[test]
fn scan_line_is_idempotent() {
    let samples = [
        "H\u{200B}ello\u{202E}World!",
        "\u{FEFF}A\u{200B}B\u{00A0}C\u{037E}",
        "\u{2018}x\u{2019}\u{7}\u{1b}[0m",
    ];
    for s in samples {
        let (fixed, _) = scan_line(s, 1);
        let (again, locs) = scan_line(&fixed, 1);
        assert_eq!(again, fixed);
        assert!(locs.is_empty());
        assert!(fixed.chars().count() <= s.chars().count());
    }
}

#[test]
fn escape_char_formats() {
    let g = |c: char| GremlinLoc { line: 1, col: 1, char_found: c, description: "x" };
    assert_eq!(g('\u{200B}').escape_char(), "\\u{200b}");
    assert_eq!(g('\u{202E}').escape_char(), "\\u{202e}");
    assert_eq!(g('a').escape_char(), "\\u{61}");
    assert_eq!(g('\0').escape_char(), "\\u{0}");
    assert_eq!(g('\u{10FFFF}').escape_char(), "\\u{10ffff}");
}

#[test]
fn escape_char_matches_std_escape_unicode() {
    for code in (0u32..=0x10FFFF).step_by(97).chain([0xFEFF, 0x37E, 0xA0]) {
        if let Some(c) = char::from_u32(code) {
            let g = GremlinLoc { line: 1, col: 1, char_found: c, description: "x" };
            assert_eq!(g.escape_char(), c.escape_unicode().to_string());
        }
    }
}

#[test]
fn line_scanner_numbers_lines() {
    let mut scanner = LineScanner::new();
    assert!(!scanner.found_any());
    let a = scanner.scan("File1\u{200B}Line1");
    let b = scanner.scan("File1\u{200B}Line2");
    let c = scanner.scan("clean");
    assert_eq!(a, "File1Line1");
    assert_eq!(b, "File1Line2");
    assert_eq!(c, "clean");
    assert!(scanner.found_any());
    let found = scanner.finish();
    assert_eq!(found.len(), 2);
    assert_eq!((found[0].line, found[0].col), (1, 6));
    assert_eq!((found[1].line, found[1].col), (2, 6));
}

#[test]
fn line_scanner_clean_text_finds_nothing() {
    let mut scanner = LineScanner::new();
    for line in "Hello World\nThis is clean.".lines() {
        assert_eq!(scanner.scan(line), line);
    }
    assert!(!scanner.found_any());
    assert!(scanner.finish().is_empty());
}

#[test]
fn scan_line_borrows_clean_lines() {
    let line = "Hello World!";
    let (fixed, locs) = scan_line(line, 1);
    assert!(locs.is_empty());
    match fixed {
        Cow::Borrowed(b) => assert!(std::ptr::eq(b, line)),
        Cow::Owned(_) => panic!("a clean line must be handed back borrowed"),
    }
    let (dirty, locs) = scan_line("a\u{200B}b", 1);
    assert_eq!(locs.len(), 1);
    assert!(matches!(dirty, Cow::Owned(ref o) if o == "ab"));
}

#[test]
fn line_scanner_counts_and_write_back() {
    let mut scanner = LineScanner::new();
    assert_eq!(scanner.line_count(), 0);
    scanner.scan("clean");
    assert_eq!(scanner.line_count(), 1);
    assert!(!scanner.needs_write_back(true));
    scanner.scan("\u{201C}q\u{201D}");
    assert_eq!(scanner.line_count(), 2);
    assert!(scanner.needs_write_back(true));
    assert!(!scanner.needs_write_back(false));
}
