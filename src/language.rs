//! The counts of one language: the sum over its files, and the files.

use vstd::prelude::*;

use crate::stats::Stats;

verus! {

/// The (blanks, code, comments, lines) sums over the files `s`.
pub open spec fn totals(s: Seq<Stats>) -> (int, int, int, int)
    decreases s.len(),
{
    if s.len() == 0 {
        (0, 0, 0, 0)
    } else {
        let t = totals(s.drop_last());
        let l = s.last();
        (t.0 + l.blanks, t.1 + l.code, t.2 + l.comments, t.3 + l.lines)
    }
}

/// Sums over two lists of files add up.
pub proof fn lemma_totals_concat(a: Seq<Stats>, b: Seq<Stats>)
    ensures
        totals(a + b) == (
            totals(a).0 + totals(b).0,
            totals(a).1 + totals(b).1,
            totals(a).2 + totals(b).2,
            totals(a).3 + totals(b).3,
        ),
    decreases b.len(),
{
    if b.len() == 0 {
        assert(a + b =~= a);
    } else {
        assert((a + b).drop_last() =~= a + b.drop_last());
        lemma_totals_concat(a, b.drop_last());
    }
}

/// Merging the files of two languages is commutative: the sums agree, and the
/// files agree up to order.
pub proof fn lemma_merge_commutative(a: Seq<Stats>, b: Seq<Stats>)
    ensures
        totals(a + b) == totals(b + a),
        (a + b).to_multiset() == (b + a).to_multiset(),
{
    lemma_totals_concat(a, b);
    lemma_totals_concat(b, a);
    vstd::seq_lib::lemma_multiset_commutative(a, b);
    vstd::seq_lib::lemma_multiset_commutative(b, a);
}

/// Merging the files of languages is associative.
pub proof fn lemma_merge_associative(a: Seq<Stats>, b: Seq<Stats>, c: Seq<Stats>)
    ensures
        totals((a + b) + c) == totals(a + (b + c)),
        (a + b) + c == a + (b + c),
{
    assert((a + b) + c =~= a + (b + c));
}

/// The sums over `a` and over `b` can be added without overflow.
pub open spec fn sums_fit(a: Seq<Stats>, b: Seq<Stats>) -> bool {
    &&& totals(a).0 + totals(b).0 <= usize::MAX
    &&& totals(a).1 + totals(b).1 <= usize::MAX
    &&& totals(a).2 + totals(b).2 <= usize::MAX
    &&& totals(a).3 + totals(b).3 <= usize::MAX
}

/// The counts of one language.
#[derive(Debug)]
pub struct Language {
    /// Number of blank lines.
    pub blanks: usize,
    /// Number of lines of code.
    pub code: usize,
    /// Number of comment lines.
    pub comments: usize,
    /// Number of lines.
    pub lines: usize,
    /// The files counted.
    pub stats: Vec<Stats>,
}

impl Language {
    /// The sums are those of the files.
    pub open spec fn wf(&self) -> bool {
        totals(self.stats@) == (
            self.blanks as int,
            self.code as int,
            self.comments as int,
            self.lines as int,
        )
    }

    /// A language with no files.
    pub fn new() -> (r: Language)
        ensures
            r.wf(),
            r.stats@.len() == 0,
    {
        Language { blanks: 0, code: 0, comments: 0, lines: 0, stats: Vec::new() }
    }

    /// Whether no file was counted.
    pub fn is_empty(&self) -> (r: bool)
        ensures
            r == (self.stats@.len() == 0),
    {
        self.stats.len() == 0
    }

    /// Adds the file `stat`, unless a sum would overflow; says whether it did.
    pub fn add_stat(&mut self, stat: Stats) -> (added: bool)
        requires
            old(self).wf(),
        ensures
            final(self).wf(),
            added == (old(self).blanks + stat.blanks <= usize::MAX && old(self).code + stat.code
                <= usize::MAX && old(self).comments + stat.comments <= usize::MAX
                && old(self).lines + stat.lines <= usize::MAX),
            added ==> final(self).stats@ == old(self).stats@.push(stat),
            !added ==> final(self).stats@ == old(self).stats@,
    {
        if self.blanks > usize::MAX - stat.blanks || self.code > usize::MAX - stat.code
            || self.comments > usize::MAX - stat.comments || self.lines > usize::MAX
            - stat.lines {
            return false;
        }
        self.blanks = self.blanks + stat.blanks;
        self.code = self.code + stat.code;
        self.comments = self.comments + stat.comments;
        self.lines = self.lines + stat.lines;
        let ghost before = self.stats@;
        self.stats.push(stat);
        assert(self.stats@.drop_last() =~= before);
        true
    }

    /// Adds the files of `other`, unless a sum would overflow; says whether
    /// it did.
    pub fn add_language(&mut self, other: Language) -> (added: bool)
        requires
            old(self).wf(),
            other.wf(),
        ensures
            final(self).wf(),
            added == sums_fit(old(self).stats@, other.stats@),
            added ==> final(self).stats@ == old(self).stats@ + other.stats@,
            !added ==> final(self).stats@ == old(self).stats@,
    {
        if self.blanks > usize::MAX - other.blanks || self.code > usize::MAX - other.code
            || self.comments > usize::MAX - other.comments || self.lines > usize::MAX
            - other.lines {
            return false;
        }
        let mut other = other;
        proof {
            lemma_totals_concat(self.stats@, other.stats@);
        }
        self.blanks = self.blanks + other.blanks;
        self.code = self.code + other.code;
        self.comments = self.comments + other.comments;
        self.lines = self.lines + other.lines;
        self.stats.append(&mut other.stats);
        true
    }
}

} // verus!
