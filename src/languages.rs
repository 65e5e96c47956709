//! The counts of every language met, keyed and ordered by language.

use vstd::prelude::*;

use crate::language::{lemma_totals_concat, sums_fit, totals, Language};
use crate::language_type::{LanguageType, LANGUAGE_COUNT};
use crate::stats::Stats;

verus! {

/// The files counted so far, for each language met.
pub open spec fn add_to(m: Map<LanguageType, Seq<Stats>>, t: LanguageType, s: Stats) -> Map<
    LanguageType,
    Seq<Stats>,
> {
    if m.contains_key(t) {
        m.insert(t, m[t].push(s))
    } else {
        m.insert(t, seq![s])
    }
}

/// The files of language `t` in `m`; none where `t` was not met.
pub open spec fn files_of(m: Map<LanguageType, Seq<Stats>>, t: LanguageType) -> Seq<Stats> {
    if m.contains_key(t) {
        m[t]
    } else {
        seq![]
    }
}

/// `m` after adding each of `files` in turn.
pub open spec fn fold_files(m: Map<LanguageType, Seq<Stats>>, files: Seq<(LanguageType, Stats)>) -> Map<
    LanguageType,
    Seq<Stats>,
>
    decreases files.len(),
{
    if files.len() == 0 {
        m
    } else {
        add_to(fold_files(m, files.drop_last()), files.last().0, files.last().1)
    }
}

pub open spec fn add4(a: (int, int, int, int), b: (int, int, int, int)) -> (int, int, int, int) {
    (a.0 + b.0, a.1 + b.1, a.2 + b.2, a.3 + b.3)
}

/// What the file `f` adds to the sums of language `t`.
pub open spec fn contribution(f: (LanguageType, Stats), t: LanguageType) -> (int, int, int, int) {
    if f.0 == t {
        (f.1.blanks as int, f.1.code as int, f.1.comments as int, f.1.lines as int)
    } else {
        (0, 0, 0, 0)
    }
}

/// The sums over those of `files` that belong to language `t`.
pub open spec fn lang_totals(files: Seq<(LanguageType, Stats)>, t: LanguageType) -> (
    int,
    int,
    int,
    int,
)
    decreases files.len(),
{
    if files.len() == 0 {
        (0, 0, 0, 0)
    } else {
        add4(lang_totals(files.drop_last(), t), contribution(files.last(), t))
    }
}

/// Adding files raises each language's sums by those of its files.
pub proof fn lemma_fold_totals(
    m: Map<LanguageType, Seq<Stats>>,
    files: Seq<(LanguageType, Stats)>,
    t: LanguageType,
)
    ensures
        totals(files_of(fold_files(m, files), t)) == add4(
            totals(files_of(m, t)),
            lang_totals(files, t),
        ),
    decreases files.len(),
{
    if files.len() > 0 {
        lemma_fold_totals(m, files.drop_last(), t);
        let before = files_of(fold_files(m, files.drop_last()), t);
        if files.last().0 == t {
            assert(before.push(files.last().1).drop_last() =~= before);
        }
    }
}

proof fn lemma_lang_totals_remove(files: Seq<(LanguageType, Stats)>, i: int, t: LanguageType)
    requires
        0 <= i < files.len(),
    ensures
        lang_totals(files, t) == add4(lang_totals(files.remove(i), t), contribution(files[i], t)),
    decreases files.len(),
{
    if i == files.len() - 1 {
        assert(files.remove(i) =~= files.drop_last());
    } else {
        lemma_lang_totals_remove(files.drop_last(), i, t);
        assert(files.drop_last().remove(i) =~= files.remove(i).drop_last());
        assert(files.remove(i).last() == files.last());
    }
}

proof fn lemma_lang_totals_permutation(
    f1: Seq<(LanguageType, Stats)>,
    f2: Seq<(LanguageType, Stats)>,
    t: LanguageType,
)
    requires
        f1.to_multiset() == f2.to_multiset(),
    ensures
        lang_totals(f1, t) == lang_totals(f2, t),
    decreases f1.len(),
{
    broadcast use vstd::seq_lib::to_multiset_len, vstd::seq_lib::to_multiset_contains;

    if f1.len() == 0 {
        assert(f2.to_multiset().len() == 0);
    } else {
        let x = f1.last();
        let rest = f1.drop_last();
        assert(rest.push(x) =~= f1);
        vstd::seq_lib::to_multiset_build(rest, x);
        assert(f1.to_multiset().count(x) > 0) by {
            broadcast use vstd::multiset::group_multiset_axioms;

        }
        assert(f2.contains(x));
        let i = choose|i: int| 0 <= i < f2.len() && f2[i] == x;
        vstd::seq_lib::to_multiset_remove(f2, i);
        assert(f2.remove(i).to_multiset() =~= rest.to_multiset()) by {
            broadcast use vstd::multiset::group_multiset_axioms;

        }
        lemma_lang_totals_permutation(rest, f2.remove(i), t);
        lemma_lang_totals_remove(f2, i, t);
    }
}

/// The order in which files are added does not change any language's sums.
pub proof fn lemma_order_does_not_matter(
    m: Map<LanguageType, Seq<Stats>>,
    f1: Seq<(LanguageType, Stats)>,
    f2: Seq<(LanguageType, Stats)>,
    t: LanguageType,
)
    requires
        f1.to_multiset() == f2.to_multiset(),
    ensures
        totals(files_of(fold_files(m, f1), t)) == totals(files_of(fold_files(m, f2), t)),
{
    lemma_fold_totals(m, f1, t);
    lemma_fold_totals(m, f2, t);
    lemma_lang_totals_permutation(f1, f2, t);
}

/// Adding no files changes nothing.
pub proof fn lemma_adding_nothing(m: Map<LanguageType, Seq<Stats>>)
    ensures
        fold_files(m, seq![]) == m,
{
}

/// Adding the file `s` to language `t` of `m` overflows no sum.
pub open spec fn step_fits(m: Map<LanguageType, Seq<Stats>>, t: LanguageType, s: Stats) -> bool {
    !m.contains_key(t) || sums_fit(m[t], seq![s])
}

/// `m` after adding each of `files` in turn, leaving out those that would
/// overflow a sum; and whether none was left out.
pub open spec fn fold_checked(
    m: Map<LanguageType, Seq<Stats>>,
    files: Seq<(LanguageType, Stats)>,
) -> (Map<LanguageType, Seq<Stats>>, bool)
    decreases files.len(),
{
    if files.len() == 0 {
        (m, true)
    } else {
        let (m1, ok) = fold_checked(m, files.drop_last());
        let f = files.last();
        if step_fits(m1, f.0, f.1) {
            (add_to(m1, f.0, f.1), ok)
        } else {
            (m1, false)
        }
    }
}

pub open spec fn fits4(x: (int, int, int, int)) -> bool {
    x.0 <= usize::MAX && x.1 <= usize::MAX && x.2 <= usize::MAX && x.3 <= usize::MAX
}

/// Adding all of `files` to `m` overflows no language's sums.
pub open spec fn no_overflow(m: Map<LanguageType, Seq<Stats>>, files: Seq<(LanguageType, Stats)>) -> bool {
    forall|t: LanguageType| #[trigger] fits4(add4(totals(files_of(m, t)), lang_totals(files, t)))
}

proof fn lemma_totals_single(s: Stats)
    ensures
        totals(seq![s]) == (s.blanks as int, s.code as int, s.comments as int, s.lines as int),
{
    assert(seq![s].drop_last() =~= Seq::<Stats>::empty());
    assert(totals(Seq::<Stats>::empty()) == (0int, 0int, 0int, 0int));
    assert(seq![s].last() == s);
}

/// Where nothing is left out, the checked fold is the plain one.
pub proof fn lemma_checked_is_fold(m: Map<LanguageType, Seq<Stats>>, files: Seq<(LanguageType, Stats)>)
    ensures
        fold_checked(m, files).1 ==> fold_checked(m, files).0 == fold_files(m, files),
    decreases files.len(),
{
    if files.len() > 0 {
        lemma_checked_is_fold(m, files.drop_last());
    }
}

/// Where no language's sums would overflow, no file is left out.
pub proof fn lemma_no_overflow_adds_all(m: Map<LanguageType, Seq<Stats>>, files: Seq<(LanguageType, Stats)>)
    requires
        no_overflow(m, files),
    ensures
        fold_checked(m, files).1,
    decreases files.len(),
{
    if files.len() > 0 {
        let rest = files.drop_last();
        let f = files.last();
        assert(no_overflow(m, rest)) by {
            assert forall|t: LanguageType| #[trigger] fits4(add4(totals(files_of(m, t)), lang_totals(rest, t))) by {
                assert(fits4(add4(totals(files_of(m, t)), lang_totals(files, t))));
            }
        }
        lemma_no_overflow_adds_all(m, rest);
        lemma_checked_is_fold(m, rest);
        lemma_fold_totals(m, rest, f.0);
        lemma_totals_single(f.1);
        assert(fits4(add4(totals(files_of(m, f.0)), lang_totals(files, f.0))));
    }
}

/// Where adding the files overflows no sum, none is left out in either
/// order, and the order in which they are added changes no language's sums.
pub proof fn lemma_checked_order_does_not_matter(
    m: Map<LanguageType, Seq<Stats>>,
    f1: Seq<(LanguageType, Stats)>,
    f2: Seq<(LanguageType, Stats)>,
    t: LanguageType,
)
    requires
        f1.to_multiset() == f2.to_multiset(),
        no_overflow(m, f1),
    ensures
        fold_checked(m, f1).1,
        fold_checked(m, f2).1,
        totals(files_of(fold_checked(m, f1).0, t)) == totals(files_of(fold_checked(m, f2).0, t)),
{
    assert(no_overflow(m, f2)) by {
        assert forall|u: LanguageType| #[trigger] fits4(add4(totals(files_of(m, u)), lang_totals(f2, u))) by {
            lemma_lang_totals_permutation(f1, f2, u);
            assert(fits4(add4(totals(files_of(m, u)), lang_totals(f1, u))));
        }
    }
    lemma_no_overflow_adds_all(m, f1);
    lemma_no_overflow_adds_all(m, f2);
    lemma_checked_is_fold(m, f1);
    lemma_checked_is_fold(m, f2);
    lemma_order_does_not_matter(m, f1, f2, t);
}

/// `m` with the files of `o` merged into each language it already has, where
/// the sums allow.
pub open spec fn merged(m: Map<LanguageType, Seq<Stats>>, o: Map<LanguageType, Seq<Stats>>) -> Map<
    LanguageType,
    Seq<Stats>,
> {
    Map::new(
        |t: LanguageType| m.contains_key(t),
        |t: LanguageType|
            if o.contains_key(t) && sums_fit(m[t], o[t]) {
                m[t] + o[t]
            } else {
                m[t]
            },
    )
}

proof fn lemma_totals_nonneg(s: Seq<Stats>)
    ensures
        totals(s).0 >= 0 && totals(s).1 >= 0 && totals(s).2 >= 0 && totals(s).3 >= 0,
    decreases s.len(),
{
    if s.len() > 0 {
        lemma_totals_nonneg(s.drop_last());
    }
}

/// Merging two maps into a third, in either order, gives a language the same
/// sums and the same files up to order, where its sums do not overflow.
pub proof fn lemma_merging_maps_commutes(
    m: Map<LanguageType, Seq<Stats>>,
    a: Map<LanguageType, Seq<Stats>>,
    b: Map<LanguageType, Seq<Stats>>,
    t: LanguageType,
)
    requires
        m.contains_key(t),
        fits4(add4(add4(totals(m[t]), totals(files_of(a, t))), totals(files_of(b, t)))),
    ensures
        totals(merged(merged(m, a), b)[t]) == totals(merged(merged(m, b), a)[t]),
        merged(merged(m, a), b)[t].to_multiset() == merged(merged(m, b), a)[t].to_multiset(),
{
    let x = m[t];
    let ya = files_of(a, t);
    let yb = files_of(b, t);
    lemma_totals_nonneg(x);
    lemma_totals_nonneg(ya);
    lemma_totals_nonneg(yb);
    lemma_totals_concat(x, ya);
    lemma_totals_concat(x, yb);
    lemma_totals_concat(x + ya, yb);
    lemma_totals_concat(x + yb, ya);
    if a.contains_key(t) && b.contains_key(t) {
        vstd::seq_lib::lemma_multiset_commutative(x + ya, yb);
        vstd::seq_lib::lemma_multiset_commutative(x + yb, ya);
        vstd::seq_lib::lemma_multiset_commutative(x, ya);
        vstd::seq_lib::lemma_multiset_commutative(x, yb);
        assert((x + ya + yb).to_multiset() =~= (x + yb + ya).to_multiset()) by {
            broadcast use vstd::multiset::group_multiset_axioms;

        }
    }
}

/// The files of each language of `a` or `b`: those of `a`, then those of `b`.
pub open spec fn joined(a: Map<LanguageType, Seq<Stats>>, b: Map<LanguageType, Seq<Stats>>) -> Map<
    LanguageType,
    Seq<Stats>,
> {
    Map::new(
        |t: LanguageType| a.contains_key(t) || b.contains_key(t),
        |t: LanguageType| files_of(a, t) + files_of(b, t),
    )
}

/// Merging two maps one after the other gives a language what merging their
/// join gives it, where its sums do not overflow.
pub proof fn lemma_merging_maps_associates(
    m: Map<LanguageType, Seq<Stats>>,
    a: Map<LanguageType, Seq<Stats>>,
    b: Map<LanguageType, Seq<Stats>>,
    t: LanguageType,
)
    requires
        m.contains_key(t),
        fits4(add4(add4(totals(m[t]), totals(files_of(a, t))), totals(files_of(b, t)))),
    ensures
        merged(merged(m, a), b)[t] == merged(m, joined(a, b))[t],
{
    let x = m[t];
    let ya = files_of(a, t);
    let yb = files_of(b, t);
    lemma_totals_nonneg(x);
    lemma_totals_nonneg(ya);
    lemma_totals_nonneg(yb);
    lemma_totals_concat(x, ya);
    lemma_totals_concat(x + ya, yb);
    lemma_totals_concat(ya, yb);
    lemma_totals_concat(x, ya + yb);
    assert(x + ya + yb =~= x + (ya + yb));
    assert(x + seq![] =~= x);
    assert(ya + seq![] =~= ya);
    assert(seq![] + yb =~= yb);
}

/// The counts of every language met, in the order of the language table.
/// There is one slot per language, at the language's position in the table,
/// so each language has at most one entry and the entries come in table
/// order. The table's size is fixed and small, so direct slots serve where an
/// ordered map would: a lookup is an index, and the order of the entries is
/// the order of the slots, with nothing to keep sorted.
pub struct Languages {
    inner: Vec<Option<Language>>,
}

impl Languages {
    /// One slot per language of the table, each holding well-formed counts.
    pub closed spec fn wf(&self) -> bool {
        &&& self.inner@.len() == LANGUAGE_COUNT
        &&& forall|i: int|
            0 <= i < self.inner@.len() && (#[trigger] self.inner@[i]) is Some ==> self.inner@[i]->0.wf()
    }

    /// The files of each language met.
    pub closed spec fn view(&self) -> Map<LanguageType, Seq<Stats>> {
        Map::new(
            |t: LanguageType| self.inner@[t.ordinal() as int] is Some,
            |t: LanguageType| self.inner@[t.ordinal() as int]->0.stats@,
        )
    }

    /// No language met yet.
    pub fn new() -> (r: Languages)
        ensures
            r.wf(),
            r.view() == Map::<LanguageType, Seq<Stats>>::empty(),
    {
        let mut inner: Vec<Option<Language>> = Vec::new();
        let mut k: usize = 0;
        while k < LANGUAGE_COUNT
            invariant
                k <= LANGUAGE_COUNT,
                inner@.len() == k,
                forall|i: int| 0 <= i < k ==> (#[trigger] inner@[i]) is None,
            decreases LANGUAGE_COUNT - k,
        {
            inner.push(None);
            k = k + 1;
        }
        let r = Languages { inner };
        assert(r.view() =~= Map::<LanguageType, Seq<Stats>>::empty());
        r
    }

    /// The counts of `t`, if it was met.
    pub fn get(&self, t: LanguageType) -> (r: Option<&Language>)
        requires
            self.wf(),
        ensures
            r is Some == self.view().contains_key(t),
            match r {
                Some(l) => l.wf() && l.stats@ == self.view()[t],
                None => true,
            },
    {
        let i = t.index();
        match &self.inner[i] {
            Some(l) => Some(l),
            None => None,
        }
    }

    /// Adds the file `stats` to language `t`, which is met from now on; a
    /// file whose counts would overflow a sum is left out. Says whether it
    /// was added.
    pub fn add_file(&mut self, t: LanguageType, stats: Stats) -> (added: bool)
        requires
            old(self).wf(),
        ensures
            final(self).wf(),
            added == step_fits(old(self).view(), t, stats),
            added ==> final(self).view() == add_to(old(self).view(), t, stats),
            !added ==> final(self).view() == old(self).view(),
    {
        proof {
            lemma_totals_single(stats);
        }
        let i = t.index();
        let slot = self.inner.remove(i);
        let mut language = match slot {
            Some(l) => l,
            None => Language::new(),
        };
        let ghost was = language.stats@;
        let added = language.add_stat(stats);
        let ghost before = self.inner@;
        self.inner.insert(i, Some(language));
        proof {
            assert forall|j: int|
                0 <= j < self.inner@.len() && (#[trigger] self.inner@[j]) is Some implies self.inner@[j]->0.wf() by {
                if j < i {
                    assert(self.inner@[j] == old(self).inner@[j]);
                } else if j > i {
                    assert(self.inner@[j] == old(self).inner@[j]);
                }
            }
            if added {
                assert(self.view() =~= add_to(old(self).view(), t, stats)) by {
                    if !old(self).view().contains_key(t) {
                        assert(was =~= seq![]);
                        assert(seq![].push(stats) =~= seq![stats]);
                    }
                }
            }
        }
        added
    }

    /// Adds each of `files` in turn, leaving out those that would overflow a
    /// sum; says whether none was left out, which is so where no language's
    /// sums overflow.
    pub fn add_files(&mut self, files: Vec<(LanguageType, Stats)>) -> (all: bool)
        requires
            old(self).wf(),
        ensures
            final(self).wf(),
            (final(self).view(), all) == fold_checked(old(self).view(), files@),
            no_overflow(old(self).view(), files@) ==> all,
            all ==> final(self).view() == fold_files(old(self).view(), files@),
    {
        let ghost orig = files@;
        proof {
            lemma_checked_is_fold(self.view(), orig);
            if no_overflow(self.view(), orig) {
                lemma_no_overflow_adds_all(self.view(), orig);
            }
        }
        let n = files.len();
        let mut files = files;
        let mut reversed: Vec<(LanguageType, Stats)> = Vec::new();
        while files.len() > 0
            invariant
                files@.len() + reversed@.len() == n,
                n == orig.len(),
                files@ == orig.take(files@.len() as int),
                forall|j: int| 0 <= j < reversed@.len() ==> #[trigger] reversed@[j] == orig[n - 1 - j],
            decreases files@.len(),
        {
            let f = files.pop().unwrap();
            reversed.push(f);
            assert(files@ =~= orig.take(files@.len() as int));
        }
        let mut all = true;
        let ghost start = self.view();
        let mut m: usize = 0;
        assert(orig.take(0) =~= seq![]);
        while reversed.len() > 0
            invariant
                self.wf(),
                m + reversed@.len() == n,
                n == orig.len(),
                forall|j: int| 0 <= j < reversed@.len() ==> #[trigger] reversed@[j] == orig[n - 1 - j],
                (self.view(), all) == fold_checked(start, orig.take(m as int)),
            decreases reversed@.len(),
        {
            let (t, stats) = reversed.pop().unwrap();
            assert((t, stats) == orig[m as int]);
            proof {
                assert(orig.take(m + 1).drop_last() =~= orig.take(m as int));
            }
            if !self.add_file(t, stats) {
                all = false;
            }
            m = m + 1;
        }
        assert(orig.take(n as int) =~= orig);
        all
    }

    /// Adds the counts `language` to language `t`: they become its counts
    /// where `t` was not met, and are merged into its counts otherwise, unless
    /// a sum would overflow. Says whether they were added.
    pub fn add_language(&mut self, t: LanguageType, language: Language) -> (added: bool)
        requires
            old(self).wf(),
            language.wf(),
        ensures
            final(self).wf(),
            added ==> final(self).view() == old(self).view().insert(
                t,
                files_of(old(self).view(), t) + language.stats@,
            ),
            !added ==> final(self).view() == old(self).view(),
            added == (!old(self).view().contains_key(t) || sums_fit(
                old(self).view()[t],
                language.stats@,
            )),
    {
        let i = t.index();
        let slot = self.inner.remove(i);
        let (merged, added) = match slot {
            Some(mut l) => {
                let added = l.add_language(language);
                (l, added)
            },
            None => {
                assert(seq![] + language.stats@ =~= language.stats@);
                (language, true)
            },
        };
        self.inner.insert(i, Some(merged));
        proof {
            assert forall|j: int|
                0 <= j < self.inner@.len() && (#[trigger] self.inner@[j]) is Some implies self.inner@[j]->0.wf() by {
                if j < i {
                    assert(self.inner@[j] == old(self).inner@[j]);
                } else if j > i {
                    assert(self.inner@[j] == old(self).inner@[j]);
                }
            }
            if added {
                assert(self.view() =~= old(self).view().insert(
                    t,
                    files_of(old(self).view(), t) + language.stats@,
                ));
            } else {
                assert(self.view() =~= old(self).view());
            }
        }
        added
    }

    /// Merges the counts of `other` into those of the languages already met;
    /// languages of `other` not met here are left out, as are counts that
    /// would overflow a sum.
    pub fn merge_existing(&mut self, other: Languages)
        requires
            old(self).wf(),
            other.wf(),
        ensures
            final(self).wf(),
            final(self).view() == merged(old(self).view(), other.view()),
            final(self).view().dom() == old(self).view().dom(),
            forall|t: LanguageType|
                #[trigger] old(self).view().contains_key(t) ==> final(self).view()[t] == if other.view().contains_key(t)
                    && sums_fit(old(self).view()[t], other.view()[t]) {
                    old(self).view()[t] + other.view()[t]
                } else {
                    old(self).view()[t]
                },
    {
        let mut other = other;
        let all = LanguageType::list();
        let mut k: usize = LANGUAGE_COUNT;
        let ghost start = self.view();
        let ghost theirs = other.view();
        let ghost orig = other.inner@;
        while k > 0
            invariant
                self.wf(),
                k <= LANGUAGE_COUNT,
                orig.len() == LANGUAGE_COUNT,
                other.inner@ == orig.take(k as int),
                all@.len() == LANGUAGE_COUNT,
                forall|i: int| 0 <= i < all@.len() ==> (#[trigger] all@[i]).ordinal() == i,
                forall|i: int|
                    0 <= i < orig.len() && (#[trigger] orig[i]) is Some ==> orig[i]->0.wf(),
                forall|t: LanguageType|
                    #[trigger] theirs.contains_key(t) <==> orig[t.ordinal() as int] is Some,
                forall|t: LanguageType|
                    theirs.contains_key(t) ==> #[trigger] theirs[t] == orig[t.ordinal() as int]->0.stats@,
                self.view().dom() == start.dom(),
                forall|t: LanguageType| #[trigger]
                    start.contains_key(t) ==> self.view()[t] == if theirs.contains_key(t)
                        && sums_fit(start[t], theirs[t]) && t.ordinal() >= k {
                        start[t] + theirs[t]
                    } else {
                        start[t]
                    },
            decreases k,
        {
            let slot = other.inner.pop().unwrap();
            k = k - 1;
            let t = all[k];
            assert(slot == orig[k as int]);
            if let Some(language) = slot {
                if self.get(t).is_some() {
                    self.add_language(t, language);
                }
            }
            proof {
                assert(other.inner@ =~= orig.take(k as int));
            }
        }
    }

    /// Every language met, in table order, with its counts.
    pub fn entries(&self) -> (r: Vec<(LanguageType, &Language)>)
        requires
            self.wf(),
        ensures
            forall|j: int|
                0 <= j < r@.len() ==> self.view().contains_key(#[trigger] r@[j].0) && r@[j].1.stats@
                    == self.view()[r@[j].0] && r@[j].1.wf(),
            forall|t: LanguageType|
                #[trigger] self.view().contains_key(t) ==> exists|j: int|
                    0 <= j < r@.len() && (#[trigger] r@[j]).0 == t,
            forall|i: int, j: int|
                0 <= i < j < r@.len() ==> (#[trigger] r@[i]).0.ordinal() < (#[trigger] r@[j]).0.ordinal(),
    {
        let all = LanguageType::list();
        let mut r: Vec<(LanguageType, &Language)> = Vec::new();
        let mut k: usize = 0;
        while k < LANGUAGE_COUNT
            invariant
                self.wf(),
                k <= LANGUAGE_COUNT,
                all@.len() == LANGUAGE_COUNT,
                forall|i: int| 0 <= i < all@.len() ==> (#[trigger] all@[i]).ordinal() == i,
                forall|j: int|
                    0 <= j < r@.len() ==> self.view().contains_key(#[trigger] r@[j].0)
                        && r@[j].1.stats@ == self.view()[r@[j].0] && r@[j].1.wf() && r@[j].0.ordinal()
                        < k,
                forall|t: LanguageType|
                    t.ordinal() < k && #[trigger] self.view().contains_key(t) ==> exists|j: int|
                        0 <= j < r@.len() && (#[trigger] r@[j]).0 == t,
                forall|i: int, j: int|
                    0 <= i < j < r@.len() ==> (#[trigger] r@[i]).0.ordinal() < (#[trigger] r@[j]).0.ordinal(),
            decreases LANGUAGE_COUNT - k,
        {
            let t = all[k];
            let ghost old_r = r@;
            if let Some(l) = self.get(t) {
                r.push((t, l));
                assert(r@[r@.len() - 1].0 == t);
            }
            proof {
                assert forall|u: LanguageType|
                    u.ordinal() < k + 1 && #[trigger] self.view().contains_key(u) implies exists|j: int|
                        0 <= j < r@.len() && (#[trigger] r@[j]).0 == u by {
                    if u.ordinal() == k {
                        assert(u == t);
                        assert(r@[r@.len() - 1].0 == u);
                    } else {
                        let j = choose|j: int| 0 <= j < old_r.len() && (#[trigger] old_r[j]).0 == u;
                        assert(r@[j] == old_r[j]);
                    }
                }
            }
            k = k + 1;
        }
        proof {
            assert forall|t: LanguageType| #[trigger]
                self.view().contains_key(t) implies exists|j: int|
                    0 <= j < r@.len() && (#[trigger] r@[j]).0 == t by {
                assert(t.ordinal() < LANGUAGE_COUNT);
            }
        }
        r
    }

    /// Every language met, in table order, with its counts, taken out of the map.
    pub fn into_entries(self) -> (r: Vec<(LanguageType, Language)>)
        requires
            self.wf(),
        ensures
            forall|j: int|
                0 <= j < r@.len() ==> self.view().contains_key(#[trigger] r@[j].0) && r@[j].1.stats@
                    == self.view()[r@[j].0] && r@[j].1.wf(),
            forall|t: LanguageType|
                #[trigger] self.view().contains_key(t) ==> exists|j: int|
                    0 <= j < r@.len() && (#[trigger] r@[j]).0 == t,
            forall|i: int, j: int|
                0 <= i < j < r@.len() ==> (#[trigger] r@[i]).0.ordinal() < (#[trigger] r@[j]).0.ordinal(),
    {
        let ghost view = self.view();
        let ghost orig = self.inner@;
        let all = LanguageType::list();
        let mut inner = self.inner;
        let mut r: Vec<(LanguageType, Language)> = Vec::new();
        let mut k: usize = 0;
        while k < LANGUAGE_COUNT
            invariant
                k <= LANGUAGE_COUNT,
                orig.len() == LANGUAGE_COUNT,
                inner@ == orig.skip(k as int),
                forall|i: int|
                    0 <= i < orig.len() && (#[trigger] orig[i]) is Some ==> orig[i]->0.wf(),
                forall|t: LanguageType| #[trigger] view.contains_key(t) <==> orig[t.ordinal() as int] is Some,
                forall|t: LanguageType|
                    view.contains_key(t) ==> #[trigger] view[t] == orig[t.ordinal() as int]->0.stats@,
                all@.len() == LANGUAGE_COUNT,
                forall|i: int| 0 <= i < all@.len() ==> (#[trigger] all@[i]).ordinal() == i,
                forall|j: int|
                    0 <= j < r@.len() ==> view.contains_key(#[trigger] r@[j].0) && r@[j].1.stats@
                        == view[r@[j].0] && r@[j].1.wf() && r@[j].0.ordinal() < k,
                forall|t: LanguageType|
                    t.ordinal() < k && #[trigger] view.contains_key(t) ==> exists|j: int|
                        0 <= j < r@.len() && (#[trigger] r@[j]).0 == t,
                forall|i: int, j: int|
                    0 <= i < j < r@.len() ==> (#[trigger] r@[i]).0.ordinal() < (#[trigger] r@[j]).0.ordinal(),
            decreases LANGUAGE_COUNT - k,
        {
            let t = all[k];
            let ghost old_r = r@;
            let slot = inner.remove(0);
            assert(slot == orig[k as int]);
            assert(inner@ =~= orig.skip(k + 1));
            if let Some(l) = slot {
                r.push((t, l));
                assert(r@[r@.len() - 1].0 == t);
            }
            proof {
                assert forall|u: LanguageType|
                    u.ordinal() < k + 1 && #[trigger] view.contains_key(u) implies exists|j: int|
                        0 <= j < r@.len() && (#[trigger] r@[j]).0 == u by {
                    if u.ordinal() == k {
                        assert(u == t);
                        assert(r@[r@.len() - 1].0 == u);
                    } else {
                        let j = choose|j: int| 0 <= j < old_r.len() && (#[trigger] old_r[j]).0 == u;
                        assert(r@[j] == old_r[j]);
                    }
                }
            }
            k = k + 1;
        }
        proof {
            assert forall|t: LanguageType| #[trigger]
                view.contains_key(t) implies exists|j: int|
                    0 <= j < r@.len() && (#[trigger] r@[j]).0 == t by {
                assert(t.ordinal() < LANGUAGE_COUNT);
            }
        }
        r
    }

    /// The languages met with at least one file, in table order, with their counts.
    pub fn remove_empty(&self) -> (r: Vec<(LanguageType, &Language)>)
        requires
            self.wf(),
        ensures
            forall|j: int|
                0 <= j < r@.len() ==> self.view().contains_key(#[trigger] r@[j].0)
                    && self.view()[r@[j].0].len() > 0 && r@[j].1.stats@ == self.view()[r@[j].0]
                    && r@[j].1.wf(),
            forall|t: LanguageType|
                self.view().contains_key(t) && #[trigger] self.view()[t].len() > 0 ==> exists|j: int|
                    0 <= j < r@.len() && (#[trigger] r@[j]).0 == t,
            forall|i: int, j: int|
                0 <= i < j < r@.len() ==> (#[trigger] r@[i]).0.ordinal() < (#[trigger] r@[j]).0.ordinal(),
    {
        let all = LanguageType::list();
        let mut r: Vec<(LanguageType, &Language)> = Vec::new();
        let mut k: usize = 0;
        while k < LANGUAGE_COUNT
            invariant
                self.wf(),
                k <= LANGUAGE_COUNT,
                all@.len() == LANGUAGE_COUNT,
                forall|i: int| 0 <= i < all@.len() ==> (#[trigger] all@[i]).ordinal() == i,
                forall|j: int|
                    0 <= j < r@.len() ==> self.view().contains_key(#[trigger] r@[j].0)
                        && self.view()[r@[j].0].len() > 0 && r@[j].1.stats@ == self.view()[r@[j].0]
                        && r@[j].1.wf() && r@[j].0.ordinal() < k,
                forall|t: LanguageType|
                    t.ordinal() < k && self.view().contains_key(t) && #[trigger] self.view()[t].len()
                        > 0 ==> exists|j: int| 0 <= j < r@.len() && (#[trigger] r@[j]).0 == t,
                forall|i: int, j: int|
                    0 <= i < j < r@.len() ==> (#[trigger] r@[i]).0.ordinal() < (#[trigger] r@[j]).0.ordinal(),
            decreases LANGUAGE_COUNT - k,
        {
            let t = all[k];
            let ghost old_r = r@;
            match self.get(t) {
                Some(l) => {
                    if !l.is_empty() {
                        r.push((t, l));
                        assert(r@[r@.len() - 1].0 == t);
                    }
                },
                None => {},
            }
            proof {
                assert forall|u: LanguageType|
                    u.ordinal() < k + 1 && self.view().contains_key(u) && #[trigger] self.view()[u].len()
                        > 0 implies exists|j: int| 0 <= j < r@.len() && (#[trigger] r@[j]).0 == u by {
                    if u.ordinal() == k {
                        assert(u == t);
                        assert(r@[r@.len() - 1].0 == u);
                    } else {
                        let j = choose|j: int| 0 <= j < old_r.len() && (#[trigger] old_r[j]).0 == u;
                        assert(r@[j] == old_r[j]);
                    }
                }
            }
            k = k + 1;
        }
        proof {
            assert forall|t: LanguageType|
                self.view().contains_key(t) && #[trigger] self.view()[t].len() > 0 implies exists|j: int|
                    0 <= j < r@.len() && (#[trigger] r@[j]).0 == t by {
                assert(t.ordinal() < LANGUAGE_COUNT);
            }
        }
        r
    }
}

} // verus!
