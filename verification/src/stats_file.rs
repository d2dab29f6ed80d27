//! The statistics a player's stats file records: one value per statistic
//! name within each category.

use vstd::prelude::*;
use crate::text::str_equal;

verus! {

/// One recorded statistic.
pub struct StatEntry {
    pub category: String,
    pub name: String,
    pub value: i32,
}

impl View for StatEntry {
    type V = (Seq<char>, Seq<char>, i32);

    open spec fn view(&self) -> (Seq<char>, Seq<char>, i32) {
        (self.category@, self.name@, self.value)
    }
}

/// The statistics of one player: for each category, the value of each
/// statistic name. A category and a name select at most one value.
pub struct StatsFile {
    entries: Vec<StatEntry>,
}

/// The entry at `i` records statistic `name` of `category`.
pub open spec fn entry_has_key(es: Seq<(Seq<char>, Seq<char>, i32)>, i: int, category: Seq<char>, name: Seq<char>) -> bool {
    0 <= i < es.len() && es[i].0 == category && es[i].1 == name
}

/// No two entries share a category and a name.
pub open spec fn keys_distinct(es: Seq<(Seq<char>, Seq<char>, i32)>) -> bool {
    forall|i: int, j: int|
        0 <= i < es.len() && 0 <= j < es.len() && i != j ==> !(es[i].0 == es[j].0 && es[i].1 == es[j].1)
}

/// The value recorded for `name` in `category`, if any.
pub open spec fn value_of(es: Seq<(Seq<char>, Seq<char>, i32)>, category: Seq<char>, name: Seq<char>) -> Option<i32> {
    if exists|i: int| entry_has_key(es, i, category, name) {
        Some(es[choose|i: int| entry_has_key(es, i, category, name)].2)
    } else {
        None
    }
}

/// The statistics of `category`, as name and value, in the order recorded.
pub open spec fn stats_of_category(es: Seq<(Seq<char>, Seq<char>, i32)>, category: Seq<char>) -> Seq<(Seq<char>, i32)>
    decreases es.len(),
{
    if es.len() == 0 {
        Seq::empty()
    } else {
        let rest = stats_of_category(es.drop_last(), category);
        if es.last().0 == category {
            rest.push((es.last().1, es.last().2))
        } else {
            rest
        }
    }
}

/// The categories that hold a statistic, each once, in order of first appearance.
pub open spec fn distinct_categories(es: Seq<(Seq<char>, Seq<char>, i32)>) -> Seq<Seq<char>>
    decreases es.len(),
{
    if es.len() == 0 {
        Seq::empty()
    } else {
        let d = distinct_categories(es.drop_last());
        if d.contains(es.last().0) {
            d
        } else {
            d.push(es.last().0)
        }
    }
}

/// The number of statistics recorded under the categories `cats`.
pub open spec fn sum_category_counts(es: Seq<(Seq<char>, Seq<char>, i32)>, cats: Seq<Seq<char>>) -> int
    decreases cats.len(),
{
    if cats.len() == 0 {
        0
    } else {
        sum_category_counts(es, cats.drop_last()) + stats_of_category(es, cats.last()).len()
    }
}

/// How often `x` occurs in `s`.
pub open spec fn occurrences(s: Seq<Seq<char>>, x: Seq<char>) -> int
    decreases s.len(),
{
    if s.len() == 0 {
        0
    } else {
        occurrences(s.drop_last(), x) + if s.last() == x { 1int } else { 0int }
    }
}

proof fn lemma_missing_category_is_empty(es: Seq<(Seq<char>, Seq<char>, i32)>, x: Seq<char>)
    requires
        !distinct_categories(es).contains(x),
    ensures
        stats_of_category(es, x).len() == 0,
    decreases es.len(),
{
    if es.len() > 0 {
        let d = distinct_categories(es.drop_last());
        if d.contains(es.last().0) {
            assert(distinct_categories(es) == d);
        } else {
            assert(distinct_categories(es) == d.push(es.last().0));
            assert(d.push(es.last().0)[d.len() as int] == es.last().0);
            assert forall|i: int| 0 <= i < d.len() implies d[i] != x by {
                assert(d.push(es.last().0)[i] == d[i]);
            }
        }
        lemma_missing_category_is_empty(es.drop_last(), x);
    }
}

proof fn lemma_distinct_categories_once(es: Seq<(Seq<char>, Seq<char>, i32)>, x: Seq<char>)
    ensures
        occurrences(distinct_categories(es), x) == if distinct_categories(es).contains(x) { 1int } else { 0int },
    decreases es.len(),
{
    if es.len() > 0 {
        let d = distinct_categories(es.drop_last());
        lemma_distinct_categories_once(es.drop_last(), x);
        if !d.contains(es.last().0) {
            let dd = d.push(es.last().0);
            assert(dd.drop_last() =~= d);
            assert(dd[d.len() as int] == es.last().0);
            if x != es.last().0 {
                assert(dd.contains(x) == d.contains(x)) by {
                    if dd.contains(x) {
                        let i = choose|i: int| 0 <= i < dd.len() && dd[i] == x;
                        assert(d[i] == x);
                    }
                    if d.contains(x) {
                        let i = choose|i: int| 0 <= i < d.len() && d[i] == x;
                        assert(dd[i] == x);
                    }
                }
            }
        }
    }
}

proof fn lemma_sum_drop_last_entry(es: Seq<(Seq<char>, Seq<char>, i32)>, cats: Seq<Seq<char>>)
    requires
        es.len() > 0,
    ensures
        sum_category_counts(es, cats) == sum_category_counts(es.drop_last(), cats) + occurrences(
            cats,
            es.last().0,
        ),
    decreases cats.len(),
{
    if cats.len() > 0 {
        lemma_sum_drop_last_entry(es, cats.drop_last());
    }
}

/// Every recorded statistic belongs to exactly one of the categories that
/// `category_names` lists: the counts of `stats_in` over those categories
/// add up to `total_stats`.
pub proof fn lemma_categories_cover_all_stats(es: Seq<(Seq<char>, Seq<char>, i32)>)
    ensures
        sum_category_counts(es, distinct_categories(es)) == es.len(),
    decreases es.len(),
{
    if es.len() > 0 {
        let rest = es.drop_last();
        let e = es.last();
        let d = distinct_categories(rest);
        lemma_categories_cover_all_stats(rest);
        lemma_sum_drop_last_entry(es, d);
        lemma_distinct_categories_once(rest, e.0);
        if d.contains(e.0) {
            assert(distinct_categories(es) == d);
        } else {
            let dd = d.push(e.0);
            assert(distinct_categories(es) == dd);
            assert(dd.drop_last() =~= d);
            lemma_missing_category_is_empty(rest, e.0);
        }
    }
}

impl StatsFile {
    /// The recorded statistics, in the order they were recorded.
    pub closed spec fn entries_view(self) -> Seq<(Seq<char>, Seq<char>, i32)> {
        self.entries@.map_values(|e: StatEntry| e@)
    }

    #[verifier::type_invariant]
    closed spec fn wf(self) -> bool {
        keys_distinct(self.entries_view())
    }

    /// A file that records nothing.
    pub fn new() -> (f: StatsFile)
        ensures
            f.entries_view() == Seq::<(Seq<char>, Seq<char>, i32)>::empty(),
    {
        let f = StatsFile { entries: Vec::new() };
        assert(f.entries_view() =~= Seq::<(Seq<char>, Seq<char>, i32)>::empty());
        f
    }

    /// Position of the entry for `name` in `category`, if any.
    fn position_of(&self, category: &str, name: &str) -> (r: Option<usize>)
        ensures
            match r {
                Some(k) => entry_has_key(self.entries_view(), k as int, category@, name@),
                None => forall|i: int| !entry_has_key(self.entries_view(), i, category@, name@),
            },
    {
        let mut i: usize = 0;
        while i < self.entries.len()
            invariant
                i <= self.entries.len(),
                forall|j: int| 0 <= j < i ==> !entry_has_key(self.entries_view(), j, category@, name@),
            decreases self.entries.len() - i,
        {
            let e = &self.entries[i];
            if str_equal(e.category.as_str(), category) && str_equal(e.name.as_str(), name) {
                return Some(i);
            }
            i = i + 1;
        }
        None
    }

    /// The value recorded for `name` in `category`.
    pub fn get(&self, category: &str, name: &str) -> (r: Option<i32>)
        ensures
            r == value_of(self.entries_view(), category@, name@),
    {
        proof {
            use_type_invariant(self);
        }
        match self.position_of(category, name) {
            Some(k) => {
                let ghost es = self.entries_view();
                let ghost c = choose|i: int| entry_has_key(es, i, category@, name@);
                assert(entry_has_key(es, c, category@, name@));
                assert(c == k as int);
                Some(self.entries[k].value)
            },
            None => None,
        }
    }

    /// Records `value` for `name` in `category`, replacing an earlier value.
    pub fn insert(&mut self, category: String, name: String, value: i32)
        ensures
            value_of(final(self).entries_view(), category@, name@) == Some(value),
            forall|c: Seq<char>, n: Seq<char>|
                !(c == category@ && n == name@) ==> #[trigger] value_of(final(self).entries_view(), c, n)
                    == value_of(old(self).entries_view(), c, n),
            final(self).entries_view().len() == old(self).entries_view().len() + if value_of(
                old(self).entries_view(),
                category@,
                name@,
            ) is Some {
                0int
            } else {
                1int
            },
    {
        proof {
            use_type_invariant(&*self);
        }
        let ghost old_es = self.entries_view();
        let position = self.position_of(category.as_str(), name.as_str());
        let mut entries: Vec<StatEntry> = Vec::new();
        std::mem::swap(&mut entries, &mut self.entries);
        assert(entries@.map_values(|e: StatEntry| e@) == old_es);
        match position {
            Some(k) => {
                let entry = StatEntry { category, name, value };
                let ghost ev = entry@;
                entries.set(k, entry);
                let ghost es = entries@.map_values(|e: StatEntry| e@);
                assert(es =~= old_es.update(k as int, ev));
                assert(entry_has_key(es, k as int, ev.0, ev.1));
                assert forall|c: Seq<char>, n: Seq<char>|
                    !(c == ev.0 && n == ev.1) implies #[trigger] value_of(es, c, n) == value_of(old_es, c, n) by {
                    assert forall|i: int| entry_has_key(es, i, c, n) <==> entry_has_key(old_es, i, c, n) by {}
                    if exists|i: int| entry_has_key(es, i, c, n) {
                        let a = choose|i: int| entry_has_key(es, i, c, n);
                        let b = choose|i: int| entry_has_key(old_es, i, c, n);
                        assert(entry_has_key(old_es, a, c, n));
                        assert(a == b);
                    }
                }
                let ghost w = choose|i: int| entry_has_key(es, i, ev.0, ev.1);
                assert(w == k as int);
                assert(value_of(old_es, ev.0, ev.1) is Some);
                self.entries = entries;
            },
            None => {
                let entry = StatEntry { category, name, value };
                let ghost ev = entry@;
                entries.push(entry);
                let ghost es = entries@.map_values(|e: StatEntry| e@);
                assert(es =~= old_es.push(ev));
                let ghost last = old_es.len() as int;
                assert(entry_has_key(es, last, ev.0, ev.1));
                assert forall|c: Seq<char>, n: Seq<char>|
                    !(c == ev.0 && n == ev.1) implies #[trigger] value_of(es, c, n) == value_of(old_es, c, n) by {
                    assert forall|i: int| entry_has_key(es, i, c, n) <==> entry_has_key(old_es, i, c, n) by {}
                    if exists|i: int| entry_has_key(es, i, c, n) {
                        let a = choose|i: int| entry_has_key(es, i, c, n);
                        let b = choose|i: int| entry_has_key(old_es, i, c, n);
                        assert(entry_has_key(old_es, a, c, n));
                        assert(keys_distinct(old_es));
                        assert(a == b);
                    }
                }
                let ghost w = choose|i: int| entry_has_key(es, i, ev.0, ev.1);
                assert(entry_has_key(es, w, ev.0, ev.1));
                proof {
                    if w != last {
                        assert(entry_has_key(old_es, w, category@, name@));
                    }
                }
                assert(w == last);
                assert(value_of(old_es, ev.0, ev.1) is None);
                assert forall|i: int, j: int|
                    0 <= i < es.len() && 0 <= j < es.len() && i != j implies !(es[i].0 == es[j].0
                        && es[i].1 == es[j].1) by {
                    if i == last {
                        assert(!entry_has_key(old_es, j, category@, name@));
                    } else if j == last {
                        assert(!entry_has_key(old_es, i, category@, name@));
                    }
                }
                self.entries = entries;
            },
        }
    }

    /// The statistics recorded in `category`, as name and value, in the
    /// order they were recorded.
    pub fn stats_in(&self, category: &str) -> (r: Vec<(String, i32)>)
        ensures
            r@.map_values(|p: (String, i32)| (p.0@, p.1)) == stats_of_category(
                self.entries_view(),
                category@,
            ),
    {
        let ghost es = self.entries_view();
        let mut r: Vec<(String, i32)> = Vec::new();
        let mut i: usize = 0;
        while i < self.entries.len()
            invariant
                i <= self.entries.len(),
                es == self.entries_view(),
                r@.map_values(|p: (String, i32)| (p.0@, p.1)) == stats_of_category(
                    es.subrange(0, i as int),
                    category@,
                ),
            decreases self.entries.len() - i,
        {
            let e = &self.entries[i];
            assert(es.subrange(0, i + 1).drop_last() =~= es.subrange(0, i as int));
            assert(es.subrange(0, i + 1).last() == e@);
            if str_equal(e.category.as_str(), category) {
                let ghost before = r@.map_values(|p: (String, i32)| (p.0@, p.1));
                r.push((e.name.clone(), e.value));
                assert(r@.map_values(|p: (String, i32)| (p.0@, p.1)) =~= before.push((e.name@, e.value)));
            }
            i = i + 1;
        }
        assert(es.subrange(0, self.entries.len() as int) =~= es);
        r
    }

    /// Whether `name` is one of `names`.
    fn listed(names: &Vec<String>, name: &str) -> (r: bool)
        ensures
            r == names@.map_values(|s: String| s@).contains(name@),
    {
        let ghost view = names@.map_values(|s: String| s@);
        let mut i: usize = 0;
        while i < names.len()
            invariant
                i <= names.len(),
                view == names@.map_values(|s: String| s@),
                forall|j: int| 0 <= j < i ==> view[j] != name@,
            decreases names.len() - i,
        {
            if str_equal(names[i].as_str(), name) {
                assert(view[i as int] == name@);
                return true;
            }
            i = i + 1;
        }
        false
    }

    /// The categories that hold a statistic, each once, in order of first
    /// appearance.
    pub fn category_names(&self) -> (r: Vec<String>)
        ensures
            r@.map_values(|s: String| s@) == distinct_categories(self.entries_view()),
    {
        let ghost es = self.entries_view();
        let mut r: Vec<String> = Vec::new();
        let mut i: usize = 0;
        while i < self.entries.len()
            invariant
                i <= self.entries.len(),
                es == self.entries_view(),
                r@.map_values(|s: String| s@) == distinct_categories(es.subrange(0, i as int)),
            decreases self.entries.len() - i,
        {
            let e = &self.entries[i];
            assert(es.subrange(0, i + 1).drop_last() =~= es.subrange(0, i as int));
            assert(es.subrange(0, i + 1).last() == e@);
            if !Self::listed(&r, e.category.as_str()) {
                let ghost before = r@.map_values(|s: String| s@);
                r.push(e.category.clone());
                assert(r@.map_values(|s: String| s@) =~= before.push(e.category@));
            }
            i = i + 1;
        }
        assert(es.subrange(0, self.entries.len() as int) =~= es);
        r
    }

    /// How many statistics the file records.
    pub fn total_stats(&self) -> (r: usize)
        ensures
            r == self.entries_view().len(),
    {
        self.entries.len()
    }
}

} // verus!
