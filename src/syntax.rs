//! The per-line scanner: which lines of a file are code, comments or blank.
//!
//! The scanner carries two pieces of state from line to line: the string
//! literal that is open, if any, and the stack of open block comments
//! (innermost last). Each line is classified from the state before it, and
//! leaves the state for the next line.

use vstd::prelude::*;

use crate::language_type::{pairs_view, strs_view, LanguageType};
use crate::text::{
    after_line, all_ws, chars_of, copy_range, is_blank_line, line_len, trim, trimmed,
};

verus! {

/// What a physical line counts as.
#[derive(Clone, Copy, Debug, PartialEq, Eq, Structural)]
pub enum LineKind {
    Blank,
    Code,
    Comment,
}

/// The state carried across lines: the closing marker of the open string
/// literal, and the closing markers of the open block comments.
pub ghost struct ScanState {
    pub quote: Option<Seq<char>>,
    pub stack: Seq<Seq<char>>,
}

/// The state at the start of a file.
pub open spec fn initial_state() -> ScanState {
    ScanState { quote: None, stack: seq![] }
}

/// `w` begins with `p`.
pub open spec fn starts_with(w: Seq<char>, p: Seq<char>) -> bool {
    p.len() <= w.len() && w.take(p.len() as int) == p
}

/// `w` begins with one of the markers `ps`.
pub open spec fn any_prefix(w: Seq<char>, ps: Seq<Seq<char>>) -> bool {
    exists|k: int| 0 <= k < ps.len() && starts_with(w, #[trigger] ps[k])
}

/// `p` occurs somewhere in `line`.
pub open spec fn contains(line: Seq<char>, p: Seq<char>) -> bool {
    exists|i: int| 0 <= i <= line.len() && #[trigger] starts_with(line.skip(i), p)
}

/// The first pair of `pairs` whose opening marker begins `w`.
pub open spec fn first_opening(w: Seq<char>, pairs: Seq<(Seq<char>, Seq<char>)>) -> Option<
    (Seq<char>, Seq<char>),
>
    decreases pairs.len(),
{
    if pairs.len() == 0 {
        None
    } else if starts_with(w, pairs[0].0) {
        Some(pairs[0])
    } else {
        first_opening(w, pairs.drop_first())
    }
}

pub open spec fn openers(pairs: Seq<(Seq<char>, Seq<char>)>) -> Seq<Seq<char>> {
    pairs.map_values(|p: (Seq<char>, Seq<char>)| p.0)
}

pub open spec fn closers(pairs: Seq<(Seq<char>, Seq<char>)>) -> Seq<Seq<char>> {
    pairs.map_values(|p: (Seq<char>, Seq<char>)| p.1)
}

/// All block comment pairs of a language: its own, then the always-nesting ones.
pub open spec fn block_pairs(lang: LanguageType) -> Seq<(Seq<char>, Seq<char>)> {
    lang.spec_multi_line_comments() + lang.spec_nested_comments()
}

/// The markers whose presence on a line rules out the quick classification.
pub open spec fn important_syntax(lang: LanguageType) -> Seq<Seq<char>> {
    openers(lang.spec_quotes()) + openers(lang.spec_multi_line_comments()) + closers(
        lang.spec_multi_line_comments(),
    ) + openers(lang.spec_nested_comments()) + closers(lang.spec_nested_comments())
}

/// The markers that make a line that starts with them a comment.
pub open spec fn comment_starts(lang: LanguageType) -> Seq<Seq<char>> {
    lang.spec_line_comments() + openers(lang.spec_multi_line_comments()) + openers(
        lang.spec_nested_comments(),
    )
}

pub open spec fn spec_is_fortran(lang: LanguageType) -> bool {
    lang == LanguageType::FortranModern || lang == LanguageType::FortranLegacy
}

/// The open string literal ends at the start of `w`.
pub open spec fn end_quote(st: ScanState, w: Seq<char>) -> Option<(ScanState, nat)> {
    match st.quote {
        Some(q) => if starts_with(w, q) {
            Some((ScanState { quote: None, stack: st.stack }, q.len()))
        } else {
            None
        },
        None => None,
    }
}

/// The innermost open block comment ends at the start of `w`.
pub open spec fn end_block(st: ScanState, w: Seq<char>) -> Option<(ScanState, nat)> {
    if st.stack.len() > 0 && starts_with(w, st.stack.last()) {
        Some((ScanState { quote: st.quote, stack: st.stack.drop_last() }, st.stack.last().len()))
    } else {
        None
    }
}

/// A string literal opens at the start of `w`.
pub open spec fn open_quote(lang: LanguageType, st: ScanState, w: Seq<char>) -> Option<
    (ScanState, nat),
> {
    if st.quote is None && st.stack.len() == 0 {
        match first_opening(w, lang.spec_quotes()) {
            Some(p) => Some((ScanState { quote: Some(p.1), stack: st.stack }, p.0.len())),
            None => None,
        }
    } else {
        None
    }
}

/// A block comment opens at the start of `w`. It is stacked unless it would
/// nest in a language whose comments do not nest.
pub open spec fn open_block(lang: LanguageType, st: ScanState, w: Seq<char>) -> Option<
    (ScanState, nat),
> {
    if st.quote is None {
        match first_opening(w, block_pairs(lang)) {
            Some(p) => {
                let push = st.stack.len() == 0 || lang.spec_allows_nested()
                    || lang.spec_nested_comments().contains(p);
                Some(
                    (
                        ScanState {
                            quote: None,
                            stack: if push {
                                st.stack.push(p.1)
                            } else {
                                st.stack
                            },
                        },
                        p.0.len(),
                    ),
                )
            },
            None => None,
        }
    } else {
        None
    }
}

/// A line comment starts at the start of `w`, outside any literal or block comment.
pub open spec fn at_line_comment(lang: LanguageType, st: ScanState, w: Seq<char>) -> bool {
    st.quote is None && st.stack.len() == 0 && any_prefix(w, lang.spec_line_comments())
}

/// One position of the scan: `None` when the rest of the line is a comment;
/// otherwise the new state, whether a literal or comment just ended, and how
/// far to move on.
pub open spec fn step(lang: LanguageType, st: ScanState, w: Seq<char>) -> Option<
    (ScanState, bool, nat),
> {
    if let Some((s, n)) = end_quote(st, w) {
        Some((s, true, n))
    } else if let Some((s, n)) = end_block(st, w) {
        Some((s, true, n))
    } else if let Some((s, n)) = open_quote(lang, st, w) {
        Some((s, false, n))
    } else if let Some((s, n)) = open_block(lang, st, w) {
        Some((s, false, n))
    } else if at_line_comment(lang, st, w) {
        None
    } else {
        Some((st, false, 1))
    }
}

/// Scans `line` from position `i`: the state at the end of the line, and
/// whether the last position looked at closed a literal or a comment.
pub open spec fn scan(lang: LanguageType, st: ScanState, line: Seq<char>, i: nat, ended: bool) -> (
    ScanState,
    bool,
)
    decreases line.len() - i,
{
    if i >= line.len() {
        (st, ended)
    } else {
        match step(lang, st, line.skip(i as int)) {
            None => (st, false),
            Some((s, e, n)) => {
                let next = i + if n == 0 {
                    1
                } else {
                    n
                };
                scan(lang, s, line, if next > line.len() { line.len() } else { next }, e)
            },
        }
    }
}

/// The quick classification applies: nothing is open and no marker that
/// could open or close something occurs on the line.
pub open spec fn basic_applies(lang: LanguageType, st: ScanState, line: Seq<char>) -> bool {
    st.quote is None && st.stack.len() == 0 && !(exists|k: int|
        0 <= k < important_syntax(lang).len() && contains(line, #[trigger] important_syntax(lang)[k]))
}

/// The line as it is looked at: trimmed, except in Fortran, whose comment
/// markers depend on the column.
pub open spec fn prepared(lang: LanguageType, raw: Seq<char>) -> Seq<char> {
    if spec_is_fortran(lang) {
        raw
    } else {
        trim(raw)
    }
}

/// What the line `raw` counts as in state `st`, and the state after it.
pub open spec fn classify(lang: LanguageType, st: ScanState, raw: Seq<char>) -> (
    LineKind,
    ScanState,
) {
    if all_ws(raw) {
        (LineKind::Blank, st)
    } else {
        let line = prepared(lang, raw);
        if basic_applies(lang, st, line) {
            (
                if any_prefix(line, lang.spec_line_comments()) {
                    LineKind::Comment
                } else {
                    LineKind::Code
                },
                st,
            )
        } else {
            let (st2, ended) = scan(lang, st, line, 0, false);
            let had_multi_line = st.stack.len() > 0;
            let comment = ((st2.stack.len() > 0 || ended) && had_multi_line) || (any_prefix(
                line,
                comment_starts(lang),
            ) && st2.quote is None);
            (
                if comment {
                    LineKind::Comment
                } else {
                    LineKind::Code
                },
                st2,
            )
        }
    }
}

/// The counts (blank, code, comment) of the lines of `t`, scanned from state `st`.
pub open spec fn tally(lang: LanguageType, st: ScanState, t: Seq<char>) -> (nat, nat, nat)
    decreases t.len(),
{
    if t.len() == 0 {
        (0, 0, 0)
    } else {
        let (k, st2) = classify(lang, st, t.take(line_len(t) as int));
        let rest = tally(lang, st2, after_line(t));
        match k {
            LineKind::Blank => (rest.0 + 1, rest.1, rest.2),
            LineKind::Code => (rest.0, rest.1 + 1, rest.2),
            LineKind::Comment => (rest.0, rest.1, rest.2 + 1),
        }
    }
}

/// The number of physical lines of `t`: one per newline, and one more for a
/// last line without a newline.
pub open spec fn line_count(t: Seq<char>) -> nat
    decreases t.len(),
{
    if t.len() == 0 {
        0
    } else {
        1 + line_count(after_line(t))
    }
}


/// The characters of each marker of a list.
pub open spec fn lists_view(v: Seq<Vec<char>>) -> Seq<Seq<char>> {
    v.map_values(|x: Vec<char>| x@)
}

/// The characters of both markers of each pair of a list.
pub open spec fn list_pairs_view(v: Seq<(Vec<char>, Vec<char>)>) -> Seq<(Seq<char>, Seq<char>)> {
    v.map_values(|p: (Vec<char>, Vec<char>)| (p.0@, p.1@))
}

proof fn lemma_first_opening_concat(
    w: Seq<char>,
    a: Seq<(Seq<char>, Seq<char>)>,
    b: Seq<(Seq<char>, Seq<char>)>,
)
    ensures
        first_opening(w, a + b) == if first_opening(w, a) is Some {
            first_opening(w, a)
        } else {
            first_opening(w, b)
        },
    decreases a.len(),
{
    if a.len() == 0 {
        assert(a + b =~= b);
    } else {
        assert((a + b)[0] == a[0]);
        assert((a + b).drop_first() =~= a.drop_first() + b);
        lemma_first_opening_concat(w, a.drop_first(), b);
    }
}

proof fn lemma_first_opening_starts(w: Seq<char>, pairs: Seq<(Seq<char>, Seq<char>)>)
    ensures
        match first_opening(w, pairs) {
            Some(p) => starts_with(w, p.0),
            None => true,
        },
    decreases pairs.len(),
{
    if pairs.len() > 0 {
        lemma_first_opening_starts(w, pairs.drop_first());
    }
}

/// Whether `line` holds `p` from position `i` on.
pub fn starts_at(line: &Vec<char>, i: usize, p: &Vec<char>) -> (r: bool)
    requires
        i <= line@.len(),
    ensures
        r == starts_with(line@.skip(i as int), p@),
{
    if p.len() > line.len() - i {
        return false;
    }
    let ghost w = line@.skip(i as int);
    let mut k: usize = 0;
    while k < p.len()
        invariant
            k <= p@.len(),
            i <= line@.len(),
            line@.len() <= usize::MAX,
            p@.len() <= line@.len() - i,
            w == line@.skip(i as int),
            forall|j: int| 0 <= j < k ==> w[j] == p@[j],
        decreases p@.len() - k,
    {
        if line[i + k] != p[k] {
            assert(w.take(p@.len() as int)[k as int] != p@[k as int]);
            return false;
        }
        k = k + 1;
    }
    assert(w.take(p@.len() as int) =~= p@);
    true
}

/// Whether `line` holds one of `ps` from position `i` on.
fn any_prefix_at(ps: &Vec<Vec<char>>, line: &Vec<char>, i: usize) -> (r: bool)
    requires
        i <= line@.len(),
    ensures
        r == any_prefix(line@.skip(i as int), lists_view(ps@)),
{
    let ghost w = line@.skip(i as int);
    let mut k: usize = 0;
    while k < ps.len()
        invariant
            k <= ps@.len(),
            w == line@.skip(i as int),
            i <= line@.len(),
            forall|j: int| 0 <= j < k ==> !starts_with(w, #[trigger] lists_view(ps@)[j]),
        decreases ps@.len() - k,
    {
        if starts_at(line, i, &ps[k]) {
            assert(starts_with(w, lists_view(ps@)[k as int]));
            return true;
        }
        k = k + 1;
    }
    false
}

/// Whether `p` occurs anywhere in `line`.
pub fn contains_at_all(line: &Vec<char>, p: &Vec<char>) -> (r: bool)
    ensures
        r == contains(line@, p@),
{
    if p.len() > line.len() {
        assert forall|i: int| 0 <= i <= line@.len() implies !#[trigger] starts_with(
            line@.skip(i),
            p@,
        ) by {}
        return false;
    }
    let last = line.len() - p.len();
    let mut j: usize = 0;
    while j < last
        invariant
            last == line@.len() - p@.len(),
            j <= last,
            forall|i: int| 0 <= i < j ==> !#[trigger] starts_with(line@.skip(i), p@),
        decreases last - j,
    {
        if starts_at(line, j, p) {
            return true;
        }
        j = j + 1;
    }
    if starts_at(line, last, p) {
        return true;
    }
    assert forall|i: int| 0 <= i <= line@.len() implies !#[trigger] starts_with(
        line@.skip(i),
        p@,
    ) by {}
    false
}

/// The index of the first pair of `pairs` whose opening marker `line` holds at `i`.
fn find_opening(pairs: &Vec<(Vec<char>, Vec<char>)>, line: &Vec<char>, i: usize) -> (r: Option<
    usize,
>)
    requires
        i <= line@.len(),
    ensures
        match r {
            Some(k) => k < pairs@.len() && first_opening(line@.skip(i as int), list_pairs_view(pairs@))
                == Some(list_pairs_view(pairs@)[k as int]),
            None => first_opening(line@.skip(i as int), list_pairs_view(pairs@)) is None,
        },
{
    let ghost w = line@.skip(i as int);
    let ghost all = list_pairs_view(pairs@);
    let mut k: usize = 0;
    assert(all.skip(0) =~= all);
    while k < pairs.len()
        invariant
            k <= pairs@.len(),
            i <= line@.len(),
            w == line@.skip(i as int),
            all == list_pairs_view(pairs@),
            first_opening(w, all) == first_opening(w, all.skip(k as int)),
        decreases pairs@.len() - k,
    {
        assert(all.skip(k as int)[0] == all[k as int]);
        if starts_at(line, i, &pairs[k].0) {
            return Some(k);
        }
        assert(all.skip(k as int).drop_first() =~= all.skip(k + 1));
        k = k + 1;
    }
    None
}

/// Whether `pairs` holds the pair `(a, b)`.
fn contains_pair(pairs: &Vec<(Vec<char>, Vec<char>)>, a: &Vec<char>, b: &Vec<char>) -> (r: bool)
    ensures
        r == list_pairs_view(pairs@).contains((a@, b@)),
{
    let ghost all = list_pairs_view(pairs@);
    let mut k: usize = 0;
    while k < pairs.len()
        invariant
            k <= pairs@.len(),
            all == list_pairs_view(pairs@),
            forall|j: int| 0 <= j < k ==> #[trigger] all[j] != (a@, b@),
        decreases pairs@.len() - k,
    {
        if same_chars(&pairs[k].0, a) && same_chars(&pairs[k].1, b) {
            assert(all[k as int] == (a@, b@));
            return true;
        }
        k = k + 1;
    }
    false
}

/// Whether two character lists are equal.
fn same_chars(a: &Vec<char>, b: &Vec<char>) -> (r: bool)
    ensures
        r == (a@ == b@),
{
    if a.len() != b.len() {
        return false;
    }
    let mut k: usize = 0;
    while k < a.len()
        invariant
            k <= a@.len(),
            a@.len() == b@.len(),
            forall|j: int| 0 <= j < k ==> a@[j] == b@[j],
        decreases a@.len() - k,
    {
        if a[k] != b[k] {
            return false;
        }
        k = k + 1;
    }
    assert(a@ =~= b@);
    true
}

/// The markers of a list, as character lists.
fn marker_lists(v: &Vec<&'static str>) -> (r: Vec<Vec<char>>)
    ensures
        lists_view(r@) == strs_view(v@),
{
    let mut r: Vec<Vec<char>> = Vec::new();
    let mut k: usize = 0;
    while k < v.len()
        invariant
            k <= v@.len(),
            r@.len() == k,
            forall|j: int| 0 <= j < k ==> (#[trigger] r@[j])@ == v@[j]@,
        decreases v@.len() - k,
    {
        r.push(chars_of(v[k]));
        k = k + 1;
    }
    assert(lists_view(r@) =~= strs_view(v@));
    r
}

/// The marker pairs of a list, as character lists.
fn marker_pair_lists(v: &Vec<(&'static str, &'static str)>) -> (r: Vec<(Vec<char>, Vec<char>)>)
    ensures
        list_pairs_view(r@) == pairs_view(v@),
{
    let mut r: Vec<(Vec<char>, Vec<char>)> = Vec::new();
    let mut k: usize = 0;
    while k < v.len()
        invariant
            k <= v@.len(),
            r@.len() == k,
            forall|j: int|
                0 <= j < k ==> (#[trigger] r@[j]).0@ == v@[j].0@ && r@[j].1@ == v@[j].1@,
        decreases v@.len() - k,
    {
        let (a, b) = v[k];
        r.push((chars_of(a), chars_of(b)));
        k = k + 1;
    }
    assert(list_pairs_view(r@) =~= pairs_view(v@));
    r
}

/// Appends the opening (or, with `closing`, the closing) markers of `pairs` to `out`.
fn append_markers(out: &mut Vec<Vec<char>>, pairs: &Vec<(Vec<char>, Vec<char>)>, closing: bool)
    ensures
        lists_view(final(out)@) == lists_view(old(out)@) + if closing {
            closers(list_pairs_view(pairs@))
        } else {
            openers(list_pairs_view(pairs@))
        },
{
    let ghost start = lists_view(out@);
    let ghost all = list_pairs_view(pairs@);
    let ghost added = if closing {
        closers(all)
    } else {
        openers(all)
    };
    let mut k: usize = 0;
    while k < pairs.len()
        invariant
            k <= pairs@.len(),
            all == list_pairs_view(pairs@),
            added == if closing {
                closers(all)
            } else {
                openers(all)
            },
            out@.len() == start.len() + k,
            forall|j: int| 0 <= j < start.len() ==> (#[trigger] out@[j])@ == start[j],
            forall|j: int| 0 <= j < k ==> (#[trigger] out@[start.len() + j])@ == added[j],
            added.len() == pairs@.len(),
        decreases pairs@.len() - k,
    {
        let m = if closing {
            &pairs[k].1
        } else {
            &pairs[k].0
        };
        out.push(copy_range(m, 0, m.len()));
        k = k + 1;
    }
    assert forall|j: int| start.len() <= j < out@.len() implies (#[trigger] out@[j])@ == added[j
        - start.len()] by {
        assert(out@[start.len() + (j - start.len())] == out@[j]);
    }
    assert(lists_view(out@) =~= start + added);
}

/// Appends the markers `ms` to `out`.
fn append_lists(out: &mut Vec<Vec<char>>, ms: &Vec<Vec<char>>)
    ensures
        lists_view(final(out)@) == lists_view(old(out)@) + lists_view(ms@),
{
    let ghost start = lists_view(out@);
    let mut k: usize = 0;
    while k < ms.len()
        invariant
            k <= ms@.len(),
            out@.len() == start.len() + k,
            forall|j: int| 0 <= j < start.len() ==> (#[trigger] out@[j])@ == start[j],
            forall|j: int| 0 <= j < k ==> (#[trigger] out@[start.len() + j])@ == ms@[j]@,
        decreases ms@.len() - k,
    {
        out.push(copy_range(&ms[k], 0, ms[k].len()));
        k = k + 1;
    }
    assert forall|j: int| start.len() <= j < out@.len() implies (#[trigger] out@[j])@ == ms@[j
        - start.len()]@ by {
        assert(out@[start.len() + (j - start.len())] == out@[j]);
    }
    assert(lists_view(out@) =~= start + lists_view(ms@));
}

/// The scanner of one file: a language's syntax, and what is open.
pub struct SyntaxCounter {
    language: LanguageType,
    allows_nested: bool,
    is_fortran: bool,
    line_comments: Vec<Vec<char>>,
    multi_line_comments: Vec<(Vec<char>, Vec<char>)>,
    nested_comments: Vec<(Vec<char>, Vec<char>)>,
    quotes: Vec<(Vec<char>, Vec<char>)>,
    important: Vec<Vec<char>>,
    comment_starts: Vec<Vec<char>>,
    quote: Option<Vec<char>>,
    stack: Vec<Vec<char>>,
}

impl SyntaxCounter {
    /// The language being scanned.
    pub closed spec fn lang(&self) -> LanguageType {
        self.language
    }

    /// The cached syntax agrees with the language table.
    pub closed spec fn wf(&self) -> bool {
        &&& self.allows_nested == self.language.spec_allows_nested()
        &&& self.is_fortran == spec_is_fortran(self.language)
        &&& lists_view(self.line_comments@) == self.language.spec_line_comments()
        &&& list_pairs_view(self.multi_line_comments@) == self.language.spec_multi_line_comments()
        &&& list_pairs_view(self.nested_comments@) == self.language.spec_nested_comments()
        &&& list_pairs_view(self.quotes@) == self.language.spec_quotes()
        &&& lists_view(self.important@) == important_syntax(self.language)
        &&& lists_view(self.comment_starts@) == comment_starts(self.language)
    }

    /// What is open.
    pub closed spec fn state(&self) -> ScanState {
        ScanState {
            quote: match self.quote {
                Some(q) => Some(q@),
                None => None,
            },
            stack: lists_view(self.stack@),
        }
    }

    /// A scanner for `language` with nothing open.
    pub fn new(language: LanguageType) -> (r: SyntaxCounter)
        ensures
            r.wf(),
            r.lang() == language,
            r.state() == initial_state(),
    {
        let line_comments = marker_lists(&language.line_comments());
        let multi_line_comments = marker_pair_lists(&language.multi_line_comments());
        let nested_comments = marker_pair_lists(&language.nested_comments());
        let quotes = marker_pair_lists(&language.quotes());
        let mut important: Vec<Vec<char>> = Vec::new();
        append_markers(&mut important, &quotes, false);
        append_markers(&mut important, &multi_line_comments, false);
        append_markers(&mut important, &multi_line_comments, true);
        append_markers(&mut important, &nested_comments, false);
        append_markers(&mut important, &nested_comments, true);
        let mut comment_starts: Vec<Vec<char>> = Vec::new();
        append_lists(&mut comment_starts, &line_comments);
        append_markers(&mut comment_starts, &multi_line_comments, false);
        append_markers(&mut comment_starts, &nested_comments, false);
        let r = SyntaxCounter {
            language,
            allows_nested: language.allows_nested(),
            is_fortran: language.is_fortran(),
            line_comments,
            multi_line_comments,
            nested_comments,
            quotes,
            important,
            comment_starts,
            quote: None,
            stack: Vec::new(),
        };
        assert(lists_view(important@) =~= important_syntax(language));
        assert(lists_view(comment_starts@) =~= self::comment_starts(language));
        assert(r.state().stack =~= seq![]);
        r
    }

    /// Closes the open string literal if `line` holds its closing marker at `i`;
    /// gives the marker's length.
    pub fn parse_end_of_quote(&mut self, line: &Vec<char>, i: usize) -> (r: Option<usize>)
        requires
            old(self).wf(),
            i <= line@.len(),
        ensures
            final(self).wf(),
            final(self).lang() == old(self).lang(),
            match end_quote(old(self).state(), line@.skip(i as int)) {
                Some((s, n)) => r == Some(n as usize) && final(self).state() == s,
                None => r is None && final(self).state() == old(self).state(),
            },
    {
        let n = match &self.quote {
            Some(q) => if starts_at(line, i, q) {
                Some(q.len())
            } else {
                None
            },
            None => None,
        };
        if n.is_some() {
            self.quote = None;
        }
        n
    }

    /// Closes the innermost open block comment if `line` holds its closing
    /// marker at `i`; gives the marker's length.
    pub fn parse_end_of_multi_line(&mut self, line: &Vec<char>, i: usize) -> (r: Option<usize>)
        requires
            old(self).wf(),
            i <= line@.len(),
        ensures
            final(self).wf(),
            final(self).lang() == old(self).lang(),
            match end_block(old(self).state(), line@.skip(i as int)) {
                Some((s, n)) => r == Some(n as usize) && final(self).state() == s,
                None => r is None && final(self).state() == old(self).state(),
            },
    {
        let depth = self.stack.len();
        if depth > 0 && starts_at(line, i, &self.stack[depth - 1]) {
            let ghost before = self.stack@;
            let n = self.stack[depth - 1].len();
            self.stack.pop();
            assert(lists_view(self.stack@) =~= lists_view(before).drop_last());
            Some(n)
        } else {
            None
        }
    }

    /// Opens a string literal if `line` holds one of the language's opening
    /// quotes at `i`, outside any literal or comment; gives the quote's length.
    pub fn parse_quote(&mut self, line: &Vec<char>, i: usize) -> (r: Option<usize>)
        requires
            old(self).wf(),
            i <= line@.len(),
        ensures
            final(self).wf(),
            final(self).lang() == old(self).lang(),
            match open_quote(old(self).lang(), old(self).state(), line@.skip(i as int)) {
                Some((s, n)) => r == Some(n as usize) && final(self).state() == s,
                None => r is None && final(self).state() == old(self).state(),
            },
    {
        if self.quote.is_some() || self.stack.len() > 0 {
            return None;
        }
        match find_opening(&self.quotes, line, i) {
            Some(k) => {
                let close = copy_range(&self.quotes[k].1, 0, self.quotes[k].1.len());
                let n = self.quotes[k].0.len();
                assert(close@ =~= self.quotes@[k as int].1@);
                self.quote = Some(close);
                Some(n)
            },
            None => None,
        }
    }

    /// Opens a block comment if `line` holds one of the language's opening
    /// markers at `i`, outside any literal; gives the marker's length. The
    /// comment is stacked unless it would nest where nesting is not allowed.
    pub fn parse_multi_line_comment(&mut self, line: &Vec<char>, i: usize) -> (r: Option<usize>)
        requires
            old(self).wf(),
            i <= line@.len(),
        ensures
            final(self).wf(),
            final(self).lang() == old(self).lang(),
            match open_block(old(self).lang(), old(self).state(), line@.skip(i as int)) {
                Some((s, n)) => r == Some(n as usize) && final(self).state() == s,
                None => r is None && final(self).state() == old(self).state(),
            },
    {
        if self.quote.is_some() {
            return None;
        }
        proof {
            lemma_first_opening_concat(
                line@.skip(i as int),
                list_pairs_view(self.multi_line_comments@),
                list_pairs_view(self.nested_comments@),
            );
        }
        let found = match find_opening(&self.multi_line_comments, line, i) {
            Some(k) => Some(
                (
                    copy_range(
                        &self.multi_line_comments[k].0,
                        0,
                        self.multi_line_comments[k].0.len(),
                    ),
                    copy_range(
                        &self.multi_line_comments[k].1,
                        0,
                        self.multi_line_comments[k].1.len(),
                    ),
                ),
            ),
            None => match find_opening(&self.nested_comments, line, i) {
                Some(k) => Some(
                    (
                        copy_range(&self.nested_comments[k].0, 0, self.nested_comments[k].0.len()),
                        copy_range(&self.nested_comments[k].1, 0, self.nested_comments[k].1.len()),
                    ),
                ),
                None => None,
            },
        };
        match found {
            Some((opener, closer)) => {
                let push = self.stack.len() == 0 || self.allows_nested || contains_pair(
                    &self.nested_comments,
                    &opener,
                    &closer,
                );
                let n = opener.len();
                if push {
                    let ghost before = self.stack@;
                    self.stack.push(closer);
                    assert(lists_view(self.stack@) =~= lists_view(before).push(closer@));
                }
                Some(n)
            },
            None => None,
        }
    }

    /// Whether a line comment starts in `line` at `i`, outside any literal or comment.
    pub fn parse_line_comment(&self, line: &Vec<char>, i: usize) -> (r: bool)
        requires
            self.wf(),
            i <= line@.len(),
        ensures
            r == at_line_comment(self.lang(), self.state(), line@.skip(i as int)),
    {
        if self.quote.is_some() || self.stack.len() > 0 {
            return false;
        }
        any_prefix_at(&self.line_comments, line, i)
    }

    /// Scans `line` position by position, updating what is open; gives whether
    /// the last position looked at closed a literal or a comment.
    pub fn scan_line(&mut self, line: &Vec<char>) -> (ended: bool)
        requires
            old(self).wf(),
        ensures
            final(self).wf(),
            final(self).lang() == old(self).lang(),
            (final(self).state(), ended) == scan(old(self).lang(), old(self).state(), line@, 0, false),
    {
        let ghost lang = self.lang();
        let ghost target = scan(lang, self.state(), line@, 0, false);
        let mut ended = false;
        let mut stop = false;
        let mut i: usize = 0;
        while !stop && i < line.len()
            invariant
                self.wf(),
                self.lang() == lang,
                i <= line@.len(),
                stop ==> (self.state(), ended) == target,
                !stop ==> scan(lang, self.state(), line@, i as nat, ended) == target,
            decreases line@.len() - i + if stop {
                0int
            } else {
                1
            },
        {
            let ghost st = self.state();
            let ghost w = line@.skip(i as int);
            ended = false;
            let moved = match self.parse_end_of_quote(line, i) {
                Some(n) => {
                    ended = true;
                    Some(n)
                },
                None => match self.parse_end_of_multi_line(line, i) {
                    Some(n) => {
                        ended = true;
                        Some(n)
                    },
                    None => match self.parse_quote(line, i) {
                        Some(n) => Some(n),
                        None => self.parse_multi_line_comment(line, i),
                    },
                },
            };
            proof {
                lemma_first_opening_starts(w, lang.spec_quotes());
                lemma_first_opening_starts(w, block_pairs(lang));
            }
            match moved {
                Some(n) => {
                    assert(step(lang, st, w) == Some((self.state(), ended, n as nat)));
                    assert(n <= w.len());
                    let step_len = if n == 0 {
                        1
                    } else {
                        n
                    };
                    i = i + step_len;
                },
                None => {
                    if self.parse_line_comment(line, i) {
                        assert(step(lang, st, w) is None);
                        stop = true;
                    } else {
                        i = i + 1;
                    }
                },
            }
        }
        ended
    }

    /// The quick classification: `None` when something is open or the line
    /// holds a marker that could open or close something.
    pub fn parse_basic(&self, line: &Vec<char>) -> (r: Option<LineKind>)
        requires
            self.wf(),
        ensures
            r == if basic_applies(self.lang(), self.state(), line@) {
                Some(
                    if any_prefix(line@, self.lang().spec_line_comments()) {
                        LineKind::Comment
                    } else {
                        LineKind::Code
                    },
                )
            } else {
                None
            },
    {
        if self.quote.is_some() || self.stack.len() > 0 {
            return None;
        }
        let ghost imp = important_syntax(self.lang());
        let mut k: usize = 0;
        while k < self.important.len()
            invariant
                self.wf(),
                imp == important_syntax(self.lang()),
                k <= self.important@.len(),
                forall|j: int| 0 <= j < k ==> !contains(line@, #[trigger] imp[j]),
            decreases self.important@.len() - k,
        {
            if contains_at_all(line, &self.important[k]) {
                assert(contains(line@, imp[k as int]));
                return None;
            }
            k = k + 1;
        }
        assert(line@.skip(0) =~= line@);
        if any_prefix_at(&self.line_comments, line, 0) {
            Some(LineKind::Comment)
        } else {
            Some(LineKind::Code)
        }
    }

    /// What the physical line `raw` counts as; updates what is open.
    pub fn classify_line(&mut self, raw: &Vec<char>) -> (k: LineKind)
        requires
            old(self).wf(),
        ensures
            final(self).wf(),
            final(self).lang() == old(self).lang(),
            (k, final(self).state()) == classify(old(self).lang(), old(self).state(), raw@),
    {
        if is_blank_line(raw) {
            return LineKind::Blank;
        }
        let line = if self.is_fortran {
            copy_range(raw, 0, raw.len())
        } else {
            trimmed(raw)
        };
        if let Some(k) = self.parse_basic(&line) {
            return k;
        }
        let had_multi_line = self.stack.len() > 0;
        let ended = self.scan_line(&line);
        assert(line@.skip(0) =~= line@);
        let starts = any_prefix_at(&self.comment_starts, &line, 0);
        if ((self.stack.len() > 0 || ended) && had_multi_line) || (starts && self.quote.is_none()) {
            LineKind::Comment
        } else {
            LineKind::Code
        }
    }
} // impl SyntaxCounter

} // verus!
