use vstd::prelude::*;

verus! {

/// What is done about a gremlin character: how it is described to the user,
/// and the character that takes its place when the text is fixed
/// (`None`: the character is removed).
#[derive(Debug, Clone, Copy)]
pub struct GremlinAction {
    pub description: &'static str,
    pub replacement: Option<char>,
}

/// A control code (Unicode general category Cc): the C0 range U+0000..U+001F
/// and the C1 range U+007F..U+009F.
pub open spec fn is_control_char(c: char) -> bool {
    c <= '\u{1F}' || ('\u{7F}' <= c && c <= '\u{9F}')
}

/// A control code other than the three ordinary whitespace controls
/// (tab, line feed, carriage return).
pub open spec fn is_unusual_control(c: char) -> bool {
    is_control_char(c) && c != '\t' && c != '\n' && c != '\r'
}

/// The gremlin table: for a gremlin character, its description and its
/// replacement; `None` for an ordinary character.
pub open spec fn gremlin_of(c: char) -> Option<(Seq<char>, Option<char>)> {
    if ('\u{202A}' <= c && c <= '\u{202E}') || ('\u{2066}' <= c && c <= '\u{2069}') {
        Some(("Bidirectional Text Override (Security Risk!)"@, None))
    } else if c == '\u{200B}' {
        Some(("Zero Width Space"@, None))
    } else if c == '\u{200C}' {
        Some(("Zero Width Non-Joiner"@, None))
    } else if c == '\u{200D}' {
        Some(("Zero Width Joiner"@, None))
    } else if c == '\u{FEFF}' {
        Some(("BOM"@, None))
    } else if c == '\u{00A0}' {
        Some(("NBSP"@, Some(' ')))
    } else if '\u{2000}' <= c && c <= '\u{200A}' {
        Some(("Variable Width Space"@, Some(' ')))
    } else if c == '\u{3000}' {
        Some(("Ideographic Space"@, Some(' ')))
    } else if c == '\u{201C}' || c == '\u{201D}' {
        Some(("Smart Double Quote"@, Some('"')))
    } else if c == '\u{2018}' || c == '\u{2019}' {
        Some(("Smart Single Quote"@, Some('\'')))
    } else if c == '\u{037E}' {
        Some(("Greek Question Mark (;)"@, Some(';')))
    } else if is_unusual_control(c) {
        Some(("Non-Whitespace Control Character"@, None))
    } else {
        None
    }
}

/// Whether `c` is a gremlin.
pub open spec fn is_gremlin(c: char) -> bool {
    gremlin_of(c) is Some
}

/// The description of a gremlin character.
pub open spec fn gremlin_description(c: char) -> Seq<char> {
    match gremlin_of(c) {
        Some((description, _)) => description,
        None => Seq::empty(),
    }
}

/// The replacement of a gremlin character (`None`: it is removed).
pub open spec fn gremlin_replacement(c: char) -> Option<char> {
    match gremlin_of(c) {
        Some((_, replacement)) => replacement,
        None => None,
    }
}

/// A control code, as `char::is_control` defines it (general category Cc).
fn is_control(c: char) -> (res: bool)
    ensures
        res == is_control_char(c),
{
    c <= '\u{1F}' || ('\u{7F}' <= c && c <= '\u{9F}')
}

/// Looks `c` up in the gremlin table.
pub fn identify_gremlin(c: char) -> (res: Option<GremlinAction>)
    ensures
        match res {
            Some(action) => gremlin_of(c) == Some((action.description@, action.replacement)),
            None => gremlin_of(c) is None,
        },
{
    if ('\u{202A}' <= c && c <= '\u{202E}') || ('\u{2066}' <= c && c <= '\u{2069}') {
        Some(GremlinAction {
            description: "Bidirectional Text Override (Security Risk!)",
            replacement: None,
        })
    } else if c == '\u{200B}' {
        Some(GremlinAction { description: "Zero Width Space", replacement: None })
    } else if c == '\u{200C}' {
        Some(GremlinAction { description: "Zero Width Non-Joiner", replacement: None })
    } else if c == '\u{200D}' {
        Some(GremlinAction { description: "Zero Width Joiner", replacement: None })
    } else if c == '\u{FEFF}' {
        Some(GremlinAction { description: "BOM", replacement: None })
    } else if c == '\u{00A0}' {
        Some(GremlinAction { description: "NBSP", replacement: Some(' ') })
    } else if '\u{2000}' <= c && c <= '\u{200A}' {
        Some(GremlinAction { description: "Variable Width Space", replacement: Some(' ') })
    } else if c == '\u{3000}' {
        Some(GremlinAction { description: "Ideographic Space", replacement: Some(' ') })
    } else if c == '\u{201C}' || c == '\u{201D}' {
        Some(GremlinAction { description: "Smart Double Quote", replacement: Some('"') })
    } else if c == '\u{2018}' || c == '\u{2019}' {
        Some(GremlinAction { description: "Smart Single Quote", replacement: Some('\'') })
    } else if c == '\u{037E}' {
        Some(GremlinAction { description: "Greek Question Mark (;)", replacement: Some(';') })
    } else if is_control(c) && c != '\t' && c != '\n' && c != '\r' {
        Some(GremlinAction { description: "Non-Whitespace Control Character", replacement: None })
    } else {
        None
    }
}

/// A replacement character is never itself a gremlin, so fixing a text
/// brings in no new gremlins.
pub proof fn lemma_replacement_is_clean(c: char)
    ensures
        gremlin_replacement(c) matches Some(r) ==> !is_gremlin(r),
{
}

/// Ordinary whitespace (space, tab, line feed, carriage return) is never a
/// gremlin.
pub proof fn lemma_ordinary_whitespace_is_clean()
    ensures
        !is_gremlin('\t'),
        !is_gremlin('\n'),
        !is_gremlin('\r'),
        !is_gremlin(' '),
{
}

} // verus!
