use std::borrow::Cow;
use vstd::prelude::*;

use crate::definitions::{
    gremlin_description, gremlin_of, gremlin_replacement, identify_gremlin, is_gremlin,
    lemma_replacement_is_clean,
};

verus! {

/// Where a gremlin was found: its line and column (both counted from 1,
/// the column in characters), the character and its description.
#[derive(Debug, PartialEq, Eq)]
pub struct GremlinLoc {
    pub line: usize,
    pub col: usize,
    pub char_found: char,
    pub description: &'static str,
}

/// What a gremlin character turns into when a text is fixed.
pub open spec fn fixed_char(c: char) -> Seq<char> {
    if !is_gremlin(c) {
        seq![c]
    } else {
        match gremlin_replacement(c) {
            Some(r) => seq![r],
            None => Seq::empty(),
        }
    }
}

/// A text with every gremlin replaced or removed.
pub open spec fn cleaned(s: Seq<char>) -> Seq<char>
    decreases s.len(),
{
    if s.len() == 0 {
        Seq::empty()
    } else {
        cleaned(s.drop_last()) + fixed_char(s.last())
    }
}

/// The positions (from 0) of the gremlins of a text, in increasing order.
pub open spec fn gremlin_positions(s: Seq<char>) -> Seq<int>
    decreases s.len(),
{
    if s.len() == 0 {
        Seq::empty()
    } else if is_gremlin(s.last()) {
        gremlin_positions(s.drop_last()).push(s.len() - 1)
    } else {
        gremlin_positions(s.drop_last())
    }
}

impl GremlinLoc {
    /// This location reports the gremlin at position `i` (from 0) of the
    /// line `text`, numbered `line_number`.
    pub open spec fn reports(self, line_number: usize, text: Seq<char>, i: int) -> bool {
        &&& 0 <= i < text.len()
        &&& self.line == line_number
        &&& self.col == i + 1
        &&& self.char_found == text[i]
        &&& self.description@ == gremlin_description(text[i])
    }
}

/// The lowercase hexadecimal digit of a value below 16.
pub open spec fn hex_digit(d: nat) -> char {
    if d < 10 {
        (d + 48) as char
    } else {
        (d + 87) as char
    }
}

/// The lowercase hexadecimal numeral of `n`, without leading zeros.
pub open spec fn hex_numeral(n: nat) -> Seq<char>
    decreases n,
{
    if n < 16 {
        seq![hex_digit(n)]
    } else {
        hex_numeral(n / 16).push(hex_digit(n % 16))
    }
}

/// The Rust escape of a character by its code point, as in `\u{200b}`.
pub open spec fn unicode_escape(c: char) -> Seq<char> {
    seq!['\\', 'u', '{'] + hex_numeral(c as nat) + seq!['}']
}

fn hex_digit_char(d: u32) -> (res: char)
    requires
        d < 16,
    ensures
        res == hex_digit(d as nat),
{
    if d < 10 {
        ((d + 48) as u8) as char
    } else {
        ((d + 87) as u8) as char
    }
}

/// Appends the hexadecimal numeral of `n` to `s`.
fn push_hex(s: &mut String, n: u32)
    ensures
        final(s)@ == old(s)@ + hex_numeral(n as nat),
    decreases n,
{
    if n >= 16 {
        push_hex(s, n / 16);
    }
    push_char(s, hex_digit_char(n % 16));
}

impl GremlinLoc {
    /// The found character as a Rust unicode escape, such as `\u{200b}`.
    pub fn escape_char(&self) -> (res: String)
        ensures
            res@ == unicode_escape(self.char_found),
    {
        let mut res = String::new();
        push_char(&mut res, '\\');
        push_char(&mut res, 'u');
        push_char(&mut res, '{');
        push_hex(&mut res, self.char_found as u32);
        push_char(&mut res, '}');
        res
    }

    fn at(line: usize, col: usize, char_found: char, description: &'static str) -> (res: Self)
        ensures
            res.line == line,
            res.col == col,
            res.char_found == char_found,
            res.description == description,
    {
        GremlinLoc { line, col, char_found, description }
    }
}

/// `locs` reports exactly the gremlins of `text`, in order.
pub open spec fn reports_all(locs: Seq<GremlinLoc>, line_number: usize, text: Seq<char>) -> bool {
    &&& locs.len() == gremlin_positions(text).len()
    &&& forall|k: int|
        0 <= k < locs.len() ==> #[trigger] locs[k].reports(
            line_number,
            text,
            gremlin_positions(text)[k],
        )
}

/// Appends a character to a string (`String::push`).
#[verifier::external_body]
fn push_char(s: &mut String, c: char)
    ensures
        final(s)@ == old(s)@.push(c),
{
    s.push(c);
}

/// The characters of a string, in order.
fn chars_of(text: &str) -> (res: Vec<char>)
    ensures
        res@ == text@,
{
    let mut res: Vec<char> = Vec::new();
    for c in it: text.chars()
        invariant
            it.seq() == text@,
            res@ == text@.take(it.index() as int),
    {
        res.push(c);
    }
    assert(text@.take(text@.len() as int) =~= text@);
    res
}

/// Scans one line: returns the line with every gremlin replaced or removed,
/// and the location of every gremlin in it, in order. A line without
/// gremlins is handed back as it is, borrowed; a new string is built only
/// once a gremlin is met.
pub fn scan_line(line: &str, line_number: usize) -> (res: (Cow<'_, str>, Vec<GremlinLoc>))
    ensures
        res.0@ == cleaned(line@),
        reports_all(res.1@, line_number, line@),
        (res.0 is Borrowed) <==> res.1@.len() == 0,
        res.0 matches Cow::Borrowed(b) ==> b == line,
        forall|k: int| 0 <= k < res.1@.len() ==> (#[trigger] res.1@[k]).line == line_number,
        forall|k: int|
            0 <= k < res.1@.len() ==> {
                &&& 1 <= (#[trigger] res.1@[k]).col <= line@.len()
                &&& line@[res.1@[k].col - 1] == res.1@[k].char_found
                &&& is_gremlin(res.1@[k].char_found)
            },
{
    let mut gremlins: Vec<GremlinLoc> = Vec::new();
    let mut output: Option<String> = None;
    let char_count: usize = line.unicode_len();
    let mut idx: usize = 0;
    for c in it: line.chars()
        invariant
            it.seq() == line@,
            char_count == line@.len(),
            idx == it.index(),
            reports_all(gremlins@, line_number, line@.take(idx as int)),
            output matches Some(o) ==> o@ == cleaned(line@.take(idx as int)),
            output is None ==> gremlins@.len() == 0,
            output is Some ==> gremlins@.len() > 0,
            output is None ==> forall|j: int| 0 <= j < idx ==> !is_gremlin(#[trigger] line@[j]),
    {
        let ghost prefix = line@.take(idx as int);
        let ghost next = line@.take(idx + 1);
        let ghost old_gremlins = gremlins@;
        assert(next.drop_last() =~= prefix);
        assert(next.last() == c);
        let col_num: usize = idx + 1;
        match identify_gremlin(c) {
            Some(action) => {
                gremlins.push(GremlinLoc::at(line_number, col_num, c, action.description));
                if output.is_none() {
                    proof {
                        assert forall|j: int| 0 <= j < prefix.len() implies !is_gremlin(
                            #[trigger] prefix[j],
                        ) by {
                            assert(prefix[j] == line@[j]);
                        }
                        lemma_clean_text_is_unchanged(prefix);
                    }
                    let mut buf = String::new();
                    buf.append(line.substring_char(0, idx));
                    output = Some(buf);
                }
                let mut buf = output.take().unwrap();
                if let Some(replacement) = action.replacement {
                    push_char(&mut buf, replacement);
                }
                output = Some(buf);
            },
            None => {
                if output.is_some() {
                    let mut buf = output.take().unwrap();
                    push_char(&mut buf, c);
                    output = Some(buf);
                }
            },
        }
        assert forall|k: int| 0 <= k < old_gremlins.len() implies #[trigger] gremlins@[k].reports(
            line_number,
            next,
            gremlin_positions(next)[k],
        ) by {
            assert(old_gremlins[k].reports(line_number, prefix, gremlin_positions(prefix)[k]));
        }
        idx = idx + 1;
    }
    assert(line@.take(line@.len() as int) =~= line@);
    proof {
        assert forall|k: int| 0 <= k < gremlins@.len() implies {
            &&& (#[trigger] gremlins@[k]).line == line_number
            &&& 1 <= gremlins@[k].col <= line@.len()
            &&& line@[gremlins@[k].col - 1] == gremlins@[k].char_found
            &&& is_gremlin(gremlins@[k].char_found)
        } by {
            lemma_report_names_its_gremlin(gremlins@, line_number, line@, k);
        }
    }
    match output {
        Some(modified) => (Cow::Owned(modified), gremlins),
        None => {
            proof {
                lemma_clean_text_is_unchanged(line@);
            }
            (Cow::Borrowed(line), gremlins)
        },
    }
}

/// Whether `needle` occurs in `hay` as a run of consecutive characters.
pub open spec fn contains_text(hay: Seq<char>, needle: Seq<char>) -> bool {
    exists|i: int| 0 <= i && i + needle.len() <= hay.len() && #[trigger] hay.subrange(i, i + needle.len()) == needle
}

/// Whether `needle` occurs in `hay`.
fn text_contains(hay: &str, needle: &str) -> (res: bool)
    ensures
        res == contains_text(hay@, needle@),
{
    let h = chars_of(hay);
    let n = chars_of(needle);
    if n.len() > h.len() {
        return false;
    }
    let last_start: usize = h.len() - n.len();
    let mut start: usize = 0;
    while start <= last_start
        invariant
            h@ == hay@,
            n@ == needle@,
            last_start == h@.len() - n@.len(),
            n@.len() <= h@.len(),
            start <= last_start + 1,
            forall|i: int| 0 <= i < start ==> #[trigger] h@.subrange(i, i + n@.len()) != n@,
        decreases last_start + 1 - start,
    {
        let mut j: usize = 0;
        let mut same = true;
        while j < n.len()
            invariant
                h@ == hay@,
                n@ == needle@,
                start + n@.len() <= h@.len(),
                h@.len() == h.len(),
                j <= n@.len(),
                same == (forall|m: int| 0 <= m < j ==> h@[start + m] == n@[m]),
            decreases n@.len() - j,
        {
            if h[start + j] != n[j] {
                same = false;
            }
            j = j + 1;
        }
        if same {
            assert(h@.subrange(start as int, start + n@.len()) =~= n@);
            return true;
        }
        assert(h@.subrange(start as int, start + n@.len()) !== n@) by {
            let m = choose|m: int| 0 <= m < n@.len() && h@[start + m] != n@[m];
            assert(h@.subrange(start as int, start + n@.len())[m] == h@[start + m]);
        }
        start = start + 1;
    }
    false
}

impl GremlinLoc {
    /// Whether the description marks this gremlin as a security risk.
    pub fn is_security_risk(&self) -> (res: bool)
        ensures
            res == contains_text(self.description@, "Security"@),
    {
        text_contains(self.description, "Security")
    }
}

/// Scans a text line by line, numbering the lines from 1 and gathering the
/// gremlins of every line.
pub struct LineScanner {
    lines: usize,
    gremlins: Vec<GremlinLoc>,
}

impl LineScanner {
    /// The number of lines scanned so far.
    pub closed spec fn lines_scanned(&self) -> nat {
        self.lines as nat
    }

    /// The gremlins found so far, in order.
    pub closed spec fn found(&self) -> Seq<GremlinLoc> {
        self.gremlins@
    }

    /// A scanner that has seen no line yet.
    pub fn new() -> (res: Self)
        ensures
            res.lines_scanned() == 0,
            res.found() == Seq::<GremlinLoc>::empty(),
    {
        LineScanner { lines: 0, gremlins: Vec::new() }
    }

    /// Scans the next line and returns it fixed; its gremlins are reported
    /// with the line's number, one more than the lines scanned before.
    pub fn scan<'a>(&mut self, line: &'a str) -> (fixed: Cow<'a, str>)
        requires
            old(self).lines_scanned() < usize::MAX,
        ensures
            fixed@ == cleaned(line@),
            final(self).lines_scanned() == old(self).lines_scanned() + 1,
            final(self).found().len() >= old(self).found().len(),
            final(self).found().subrange(0, old(self).found().len() as int) == old(self).found(),
            reports_all(
                final(self).found().skip(old(self).found().len() as int),
                (old(self).lines_scanned() + 1) as usize,
                line@,
            ),
            forall|k: int|
                old(self).found().len() <= k < final(self).found().len() ==> (
                #[trigger] final(self).found()[k]).line == old(self).lines_scanned() + 1,
    {
        let line_number: usize = self.lines + 1;
        let (fixed, mut found) = scan_line(line, line_number);
        let ghost before = self.gremlins@;
        let ghost added = found@;
        self.gremlins.append(&mut found);
        self.lines = line_number;
        assert(self.gremlins@.subrange(0, before.len() as int) =~= before);
        assert(self.gremlins@.skip(before.len() as int) =~= added);
        assert forall|k: int|
            before.len() <= k < self.gremlins@.len() implies (#[trigger] self.gremlins@[k]).line
            == line_number by {
            assert(self.gremlins@[k] == added[k - before.len()]);
        }
        fixed
    }

    /// The number of lines scanned so far.
    pub fn line_count(&self) -> (res: usize)
        ensures
            res == self.lines_scanned(),
    {
        self.lines
    }

    /// Whether the fixed text is to replace the original one: only when
    /// writing is asked for and some gremlin was found.
    pub fn needs_write_back(&self, write: bool) -> (res: bool)
        ensures
            res == (write && self.found().len() > 0),
    {
        write && self.gremlins.len() > 0
    }

    /// Whether any gremlin was found so far.
    pub fn found_any(&self) -> (res: bool)
        ensures
            res == (self.found().len() > 0),
    {
        self.gremlins.len() > 0
    }

    /// Ends the scan and hands out the gremlins found, in order.
    pub fn finish(self) -> (res: Vec<GremlinLoc>)
        ensures
            res@ == self.found(),
    {
        self.gremlins
    }
}

/// The value of a lowercase hexadecimal digit.
pub open spec fn hex_digit_value(c: char) -> int {
    if '0' <= c && c <= '9' {
        c as int - 48
    } else {
        c as int - 87
    }
}

/// The value of a hexadecimal numeral.
pub open spec fn hex_value(s: Seq<char>) -> int
    decreases s.len(),
{
    if s.len() == 0 {
        0
    } else {
        hex_value(s.drop_last()) * 16 + hex_digit_value(s.last())
    }
}

/// The escape of a character reads back as its code point.
pub proof fn lemma_escape_names_code_point(c: char)
    ensures
        unicode_escape(c).subrange(0, 3) == seq!['\\', 'u', '{'],
        unicode_escape(c).last() == '}',
        hex_value(unicode_escape(c).subrange(3, unicode_escape(c).len() - 1)) == c as int,
{
    let digits = hex_numeral(c as nat);
    lemma_hex_numeral_value(c as nat);
    assert(unicode_escape(c).subrange(3, unicode_escape(c).len() - 1) =~= digits);
    assert(unicode_escape(c).subrange(0, 3) =~= seq!['\\', 'u', '{']);
}

/// A hexadecimal numeral is never empty and reads back as its number.
pub proof fn lemma_hex_numeral_value(n: nat)
    ensures
        hex_numeral(n).len() > 0,
        hex_value(hex_numeral(n)) == n,
    decreases n,
{
    let d: nat = n % 16;
    assert(hex_digit_value(hex_digit(d)) == d) by {
        if d < 10 {
            assert((d + 48) as char as int == d + 48);
        } else {
            assert((d + 87) as char as int == d + 87);
        }
    }
    if n >= 16 {
        lemma_hex_numeral_value(n / 16);
        assert(hex_numeral(n).drop_last() =~= hex_numeral(n / 16));
        assert(hex_numeral(n).last() == hex_digit(d));
        assert(n == (n / 16) * 16 + d);
        assert(hex_value(hex_numeral(n)) == hex_value(hex_numeral(n / 16)) * 16 + hex_digit_value(
            hex_digit(d),
        ));
    } else {
        assert(hex_numeral(n).drop_last() =~= Seq::<char>::empty());
        assert(hex_value(hex_numeral(n)) == hex_value(Seq::<char>::empty()) * 16
            + hex_digit_value(hex_digit(d)));
    }
}

/// No text holds a gremlin once it is fixed.
pub proof fn lemma_cleaned_has_no_gremlins(s: Seq<char>)
    ensures
        forall|i: int| 0 <= i < cleaned(s).len() ==> !is_gremlin(#[trigger] cleaned(s)[i]),
    decreases s.len(),
{
    if s.len() > 0 {
        lemma_cleaned_has_no_gremlins(s.drop_last());
        lemma_replacement_is_clean(s.last());
        let head = cleaned(s.drop_last());
        let tail = fixed_char(s.last());
        assert forall|i: int| 0 <= i < cleaned(s).len() implies !is_gremlin(
            #[trigger] cleaned(s)[i],
        ) by {
            if i < head.len() {
                assert(cleaned(s)[i] == head[i]);
            } else {
                assert(cleaned(s)[i] == tail[i - head.len()]);
            }
        }
    }
}

/// A text without gremlins is left as it is, and nothing is reported in it.
pub proof fn lemma_clean_text_is_unchanged(s: Seq<char>)
    requires
        forall|i: int| 0 <= i < s.len() ==> !is_gremlin(#[trigger] s[i]),
    ensures
        cleaned(s) == s,
        gremlin_positions(s).len() == 0,
    decreases s.len(),
{
    if s.len() > 0 {
        let init = s.drop_last();
        assert forall|i: int| 0 <= i < init.len() implies !is_gremlin(#[trigger] init[i]) by {
            assert(init[i] == s[i]);
        }
        lemma_clean_text_is_unchanged(init);
        assert(!is_gremlin(s[s.len() - 1]));
        assert(cleaned(s) =~= s);
    }
}

/// Fixing a fixed text changes nothing and finds nothing.
pub proof fn lemma_fix_is_idempotent(s: Seq<char>)
    ensures
        cleaned(cleaned(s)) == cleaned(s),
        gremlin_positions(cleaned(s)).len() == 0,
{
    lemma_cleaned_has_no_gremlins(s);
    lemma_clean_text_is_unchanged(cleaned(s));
}

/// Fixing never lengthens a text.
pub proof fn lemma_cleaned_is_no_longer(s: Seq<char>)
    ensures
        cleaned(s).len() <= s.len(),
    decreases s.len(),
{
    if s.len() > 0 {
        lemma_cleaned_is_no_longer(s.drop_last());
    }
}

/// The reported positions are exactly the positions of the gremlins, in
/// strictly increasing order.
pub proof fn lemma_positions_are_exact(s: Seq<char>)
    ensures
        forall|k: int|
            0 <= k < gremlin_positions(s).len() ==> {
                &&& 0 <= #[trigger] gremlin_positions(s)[k] < s.len()
                &&& is_gremlin(s[gremlin_positions(s)[k]])
            },
        forall|k: int, l: int|
            0 <= k < l < gremlin_positions(s).len() ==> #[trigger] gremlin_positions(s)[k]
                < #[trigger] gremlin_positions(s)[l],
        forall|i: int|
            0 <= i < s.len() && is_gremlin(#[trigger] s[i]) ==> gremlin_positions(s).contains(i),
    decreases s.len(),
{
    if s.len() > 0 {
        let init = s.drop_last();
        lemma_positions_are_exact(init);
        let p = gremlin_positions(s);
        let q = gremlin_positions(init);
        assert forall|k: int| 0 <= k < q.len() implies #[trigger] s[q[k]] == init[q[k]] by {}
        assert forall|i: int| 0 <= i < s.len() && is_gremlin(#[trigger] s[i]) implies p.contains(i) by {
            if i < s.len() - 1 {
                assert(init[i] == s[i]);
                assert(q.contains(i));
                let k = choose|k: int| 0 <= k < q.len() && q[k] == i;
                assert(p[k] == i);
            } else {
                assert(p[p.len() - 1] == i);
            }
        }
    }
}

/// A location reports the gremlin found in its own line, at its own column.
pub proof fn lemma_report_names_its_gremlin(
    locs: Seq<GremlinLoc>,
    line_number: usize,
    text: Seq<char>,
    k: int,
)
    requires
        reports_all(locs, line_number, text),
        0 <= k < locs.len(),
    ensures
        locs[k].line == line_number,
        1 <= locs[k].col <= text.len(),
        text[locs[k].col - 1] == locs[k].char_found,
        is_gremlin(locs[k].char_found),
        locs[k].description@ == gremlin_description(locs[k].char_found),
{
    lemma_positions_are_exact(text);
    assert(locs[k].reports(line_number, text, gremlin_positions(text)[k]));
}

/// Fixing a one-character text: an ordinary character stays, a gremlin with
/// a replacement becomes exactly that replacement, and only a gremlin without
/// one is removed.
pub proof fn lemma_fix_one_char(c: char)
    ensures
        cleaned(seq![c]) == match gremlin_of(c) {
            None => seq![c],
            Some((_, Some(r))) => seq![r],
            Some((_, None)) => Seq::<char>::empty(),
        },
{
    let one = seq![c];
    assert(one.drop_last() =~= Seq::<char>::empty());
    assert(one.last() == c);
    assert(cleaned(one.drop_last()) == Seq::<char>::empty());
    assert(cleaned(one) == cleaned(one.drop_last()) + fixed_char(c));
    assert(cleaned(one) =~= fixed_char(c));
}

/// Fixing works character by character: the fix of two texts put together
/// is the two fixes put together.
pub proof fn lemma_fix_concat(s: Seq<char>, t: Seq<char>)
    ensures
        cleaned(s + t) == cleaned(s) + cleaned(t),
    decreases t.len(),
{
    if t.len() == 0 {
        assert(s + t =~= s);
        assert(cleaned(s) + cleaned(t) =~= cleaned(s));
    } else {
        lemma_fix_concat(s, t.drop_last());
        assert((s + t).drop_last() =~= s + t.drop_last());
        assert((s + t).last() == t.last());
        assert(cleaned(s + t) =~= cleaned(s) + cleaned(t));
    }
}

/// What fixing does to each kind of character, as the gremlin table says:
/// smart single quotes become `'`, smart double quotes `"`, unusual spaces a
/// space, the Greek question mark `;`; zero-width characters, the BOM,
/// bidirectional controls and other control codes are removed; printable
/// ASCII, tab, line feed and carriage return stay as they are.
pub proof fn lemma_fix_table(c: char)
    ensures
        (c == '\u{2018}' || c == '\u{2019}') ==> cleaned(seq![c]) == seq!['\''],
        (c == '\u{201C}' || c == '\u{201D}') ==> cleaned(seq![c]) == seq!['"'],
        (c == '\u{00A0}' || c == '\u{3000}' || ('\u{2000}' <= c && c <= '\u{200A}')) ==> cleaned(
            seq![c],
        ) == seq![' '],
        c == '\u{037E}' ==> cleaned(seq![c]) == seq![';'],
        (c == '\u{200B}' || c == '\u{200C}' || c == '\u{200D}' || c == '\u{FEFF}' || (
        '\u{202A}' <= c && c <= '\u{202E}') || ('\u{2066}' <= c && c <= '\u{2069}') || (c
            <= '\u{1F}' && c != '\t' && c != '\n' && c != '\r') || ('\u{7F}' <= c && c
            <= '\u{9F}')) ==> cleaned(seq![c]) == Seq::<char>::empty(),
        (c == '\t' || c == '\n' || c == '\r' || (' ' <= c && c <= '~')) ==> cleaned(seq![c])
            == seq![c],
{
    lemma_fix_one_char(c);
}

} // verus!
