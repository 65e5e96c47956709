//! Counting a whole file: decoding its bytes and classifying each line.

use vstd::prelude::*;
use vstd::string::StringSliceAdditionalSpecFns;
use vstd::utf8::{decode_utf8, encode_utf8_decode_utf8, valid_utf8};

use crate::language_type::LanguageType;
use crate::stats::Stats;
use crate::syntax::{classify, initial_state, line_count, tally, LineKind, ScanState, SyntaxCounter};
use crate::text::{after_line, chars_of, copy_range, line_end, line_len};

verus! {

/// Why a file's contents could not be counted.
#[derive(Clone, Copy, Debug, PartialEq, Eq, Structural)]
pub enum ParseError {
    /// The contents look binary.
    Binary,
}

/// How many leading bytes are examined to tell binary contents from text.
pub const BINARY_PROBE_LEN: usize = 8000;

/// The contents look binary: a NUL byte occurs among the first
/// `BINARY_PROBE_LEN` bytes.
pub open spec fn spec_is_binary(b: Seq<u8>) -> bool {
    exists|i: int| 0 <= i < b.len() && i < BINARY_PROBE_LEN && #[trigger] b[i] == 0
}

/// Whether `bytes` look binary.
pub fn is_binary(bytes: &[u8]) -> (r: bool)
    ensures
        r == spec_is_binary(bytes@),
{
    let mut i: usize = 0;
    while i < bytes.len() && i < BINARY_PROBE_LEN
        invariant
            i <= bytes@.len(),
            forall|j: int| 0 <= j < i ==> #[trigger] bytes@[j] != 0,
        decreases bytes@.len() - i,
    {
        if bytes[i] == 0 {
            return true;
        }
        i = i + 1;
    }
    false
}

/// Each byte as the character of the same number (Latin-1).
pub open spec fn latin1(b: Seq<u8>) -> Seq<char> {
    b.map_values(|x: u8| x as char)
}

/// The text of `b`: UTF-8 where it is well-formed, Latin-1 otherwise.
pub open spec fn decoded(b: Seq<u8>) -> Seq<char> {
    if valid_utf8(b) {
        decode_utf8(b)
    } else {
        latin1(b)
    }
}

/// Relies on `std::str::from_utf8`: it accepts exactly the well-formed UTF-8
/// byte strings, and the string it gives has the same bytes.
#[verifier::external_body]
fn utf8_str(b: &[u8]) -> (r: Option<&str>)
    ensures
        r is Some <==> valid_utf8(b@),
        match r {
            Some(s) => s.spec_bytes() == b@,
            None => true,
        },
{
    std::str::from_utf8(b).ok()
}

/// The text of `bytes`: UTF-8 where it is well-formed, Latin-1 otherwise.
pub fn decode(bytes: &[u8]) -> (r: Vec<char>)
    ensures
        r@ == decoded(bytes@),
{
    match utf8_str(bytes) {
        Some(s) => {
            proof {
                encode_utf8_decode_utf8(s@);
            }
            chars_of(s)
        },
        None => {
            let mut r: Vec<char> = Vec::new();
            let mut i: usize = 0;
            while i < bytes.len()
                invariant
                    i <= bytes@.len(),
                    r@ =~= latin1(bytes@.take(i as int)),
                decreases bytes@.len() - i,
            {
                r.push(bytes[i] as char);
                i = i + 1;
                assert(r@ =~= latin1(bytes@.take(i as int)));
            }
            assert(bytes@.take(i as int) =~= bytes@);
            r
        },
    }
}

/// The (blank, code, comment) counts of the text `t` in language `lang`. In a
/// blank language every line is code.
pub open spec fn spec_counts(lang: LanguageType, t: Seq<char>) -> (nat, nat, nat) {
    if lang.spec_is_blank() {
        (0, line_count(t), 0)
    } else {
        tally(lang, initial_state(), t)
    }
}

/// `s` holds the counts of the text `t` in language `lang`, and its total is
/// their sum, which is the number of physical lines.
pub open spec fn counted(s: Stats, lang: LanguageType, t: Seq<char>) -> bool {
    &&& (s.blanks as nat, s.code as nat, s.comments as nat) == spec_counts(lang, t)
    &&& s.lines == s.blanks + s.code + s.comments
    &&& s.lines == line_count(t)
}

proof fn lemma_next_line(t: Seq<char>, pos: int, e: int)
    requires
        0 <= pos < t.len(),
        pos <= e <= t.len(),
        e - pos == line_len(t.skip(pos)),
    ensures
        t.skip(pos).take(e - pos) == t.subrange(pos, e),
        after_line(t.skip(pos)) == t.skip(if e < t.len() {
            e + 1
        } else {
            t.len() as int
        }),
{
    assert(t.skip(pos).take(e - pos) =~= t.subrange(pos, e));
    if e < t.len() {
        assert(t.skip(pos).skip(e - pos + 1) =~= t.skip(e + 1));
    } else {
        assert(t.skip(t.len() as int) =~= seq![]);
    }
}

/// The number of physical lines of `text`.
fn count_physical_lines(text: &Vec<char>) -> (r: usize)
    ensures
        r == line_count(text@),
{
    let n = text.len();
    let mut count: usize = 0;
    let mut pos: usize = 0;
    assert(text@.skip(0) =~= text@);
    while pos < n
        invariant
            n == text@.len(),
            pos <= n,
            count <= pos,
            count + line_count(text@.skip(pos as int)) == line_count(text@),
        decreases n - pos,
    {
        let e = line_end(text, pos);
        proof {
            lemma_next_line(text@, pos as int, e as int);
        }
        count = count + 1;
        pos = if e < n {
            e + 1
        } else {
            n
        };
    }
    assert(text@.skip(n as int) =~= seq![]);
    count
}

/// Classifies each line of `text` in language `lang` (which is not blank).
pub fn parse_lines(lang: LanguageType, text: &Vec<char>, name: String) -> (r: Stats)
    requires
        !lang.spec_is_blank(),
    ensures
        counted(r, lang, text@),
        r.name@ == name@,
{
    let mut syntax = SyntaxCounter::new(lang);
    let n = text.len();
    let mut blanks: usize = 0;
    let mut code: usize = 0;
    let mut comments: usize = 0;
    let mut pos: usize = 0;
    let ghost whole = tally(lang, initial_state(), text@);
    assert(text@.skip(0) =~= text@);
    while pos < n
        invariant
            syntax.wf(),
            syntax.lang() == lang,
            n == text@.len(),
            pos <= n,
            blanks + code + comments <= pos,
            whole == tally(lang, initial_state(), text@),
            blanks + tally(lang, syntax.state(), text@.skip(pos as int)).0 == whole.0,
            code + tally(lang, syntax.state(), text@.skip(pos as int)).1 == whole.1,
            comments + tally(lang, syntax.state(), text@.skip(pos as int)).2 == whole.2,
        decreases n - pos,
    {
        let e = line_end(text, pos);
        let raw = copy_range(text, pos, e);
        proof {
            lemma_next_line(text@, pos as int, e as int);
        }
        let kind = syntax.classify_line(&raw);
        match kind {
            LineKind::Blank => blanks = blanks + 1,
            LineKind::Code => code = code + 1,
            LineKind::Comment => comments = comments + 1,
        }
        pos = if e < n {
            e + 1
        } else {
            n
        };
    }
    assert(text@.skip(n as int) =~= seq![]);
    proof {
        lemma_counts_cover_lines(lang, text@);
    }
    let mut stats = Stats::new(name);
    stats.blanks = blanks;
    stats.code = code;
    stats.comments = comments;
    stats.lines = blanks + code + comments;
    stats
}

/// In a blank language no line counts as blank or as a comment: every
/// physical line, empty or not, is code.
pub proof fn lemma_blank_language_counts(lang: LanguageType, t: Seq<char>)
    requires
        lang.spec_is_blank(),
    ensures
        spec_counts(lang, t).0 == 0,
        spec_counts(lang, t).2 == 0,
        spec_counts(lang, t).1 == line_count(t),
{
}

proof fn lemma_tally_lines(lang: LanguageType, st: ScanState, t: Seq<char>)
    ensures
        tally(lang, st, t).0 + tally(lang, st, t).1 + tally(lang, st, t).2 == line_count(t),
    decreases t.len(),
{
    if t.len() > 0 {
        let (k, st2) = classify(lang, st, t.take(line_len(t) as int));
        lemma_tally_lines(lang, st2, after_line(t));
    }
}

/// Every physical line is counted once: as blank, code or comment.
pub proof fn lemma_counts_cover_lines(lang: LanguageType, t: Seq<char>)
    ensures
        spec_counts(lang, t).0 + spec_counts(lang, t).1 + spec_counts(lang, t).2 == line_count(t),
{
    lemma_tally_lines(lang, initial_state(), t);
}

/// A blank language has no comment or quote markers.
pub proof fn lemma_blank_language_has_no_markers(lang: LanguageType)
    requires
        lang.spec_is_blank(),
    ensures
        lang.spec_line_comments().len() == 0,
        lang.spec_multi_line_comments().len() == 0,
        lang.spec_nested_comments().len() == 0,
        lang.spec_quotes().len() == 0,
{
}

impl LanguageType {
    /// Counts the lines of `text`, a file named `name` in this language.
    pub fn parse_from_chars(self, name: String, text: &Vec<char>) -> (r: Stats)
        ensures
            counted(r, self, text@),
            r.name@ == name@,
    {
        if self.is_blank() {
            let count = count_physical_lines(text);
            let mut stats = Stats::new(name);
            stats.lines = count;
            stats.code = count;
            stats
        } else {
            parse_lines(self, text, name)
        }
    }

    /// Counts the lines of `text`, a file named `name` in this language.
    pub fn parse_from_str(self, name: String, text: &str) -> (r: Stats)
        ensures
            counted(r, self, text@),
            r.name@ == name@,
    {
        self.parse_from_chars(name, &chars_of(text))
    }

    /// Counts the lines of the file contents `text`; contents that look
    /// binary are refused.
    pub fn parse_from_bytes(self, name: String, text: &[u8]) -> (r: Result<Stats, ParseError>)
        ensures
            spec_is_binary(text@) <==> r is Err,
            match r {
                Ok(s) => counted(s, self, decoded(text@)) && s.name@ == name@,
                Err(e) => e == ParseError::Binary,
            },
    {
        if is_binary(text) {
            return Err(ParseError::Binary);
        }
        let chars = decode(text);
        Ok(self.parse_from_chars(name, &chars))
    }
}

} // verus!
