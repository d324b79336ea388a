//! Commit history walker, pure part: tallying the commits of an ancestry
//! traversal per author. The backend hands the walker one item per visited
//! commit id; the fold over those items — which commits count, under which
//! label each is tallied, and that the total equals the sum of the per-author
//! counts — is verified.

use vstd::prelude::*;

verus! {

/// One visited commit of the ancestry traversal, as the backend reports it.
pub enum CommitItem {
    /// The commit could not be loaded; the walk skips it.
    Unreadable,
    /// The commit was loaded; carries its author's display name, where the
    /// commit records a readable one.
    Authored(Option<String>),
}

/// The sentinel under which commits without a usable author name are tallied.
pub open spec fn unknown_author() -> Seq<char> {
    "Unknown"@
}

/// The tally label of one visited commit: `None` where the commit is skipped,
/// otherwise the author name, with the sentinel for an absent or empty one.
pub open spec fn spec_label(item: CommitItem) -> Option<Seq<char>> {
    match item {
        CommitItem::Unreadable => Option::None,
        CommitItem::Authored(name) => Option::Some(
            match name {
                Option::Some(n) => if n@.len() == 0 {
                    unknown_author()
                } else {
                    n@
                },
                Option::None => unknown_author(),
            },
        ),
    }
}

/// One author's count raised by one commit.
pub open spec fn spec_bump(m: Map<Seq<char>, nat>, k: Seq<char>) -> Map<Seq<char>, nat> {
    m.insert(
        k,
        if m.dom().contains(k) {
            (m[k] + 1) as nat
        } else {
            1nat
        },
    )
}

/// The per-author tally of a traversal: every loadable commit counted exactly
/// once under its label; skipped commits leave the tally unchanged.
pub open spec fn spec_tally(items: Seq<CommitItem>) -> Map<Seq<char>, nat>
    decreases items.len(),
{
    if items.len() == 0 {
        Map::empty()
    } else {
        match spec_label(items.last()) {
            Option::Some(k) => spec_bump(spec_tally(items.drop_last()), k),
            Option::None => spec_tally(items.drop_last()),
        }
    }
}

/// How many commits a traversal counts: exactly the loadable ones.
pub open spec fn spec_commit_count(items: Seq<CommitItem>) -> nat
    decreases items.len(),
{
    if items.len() == 0 {
        0
    } else {
        spec_commit_count(items.drop_last()) + (if spec_label(items.last()) matches Option::Some(
        _,
        ) {
            1nat
        } else {
            0nat
        })
    }
}

/// The tally map a list of (author, count) entries denotes.
spec fn as_tally_map(s: Seq<(String, usize)>) -> Map<Seq<char>, nat>
    decreases s.len(),
{
    if s.len() == 0 {
        Map::empty()
    } else {
        as_tally_map(s.drop_last()).insert(s.last().0@, s.last().1 as nat)
    }
}

/// The sum of the counts of a list of (author, count) entries.
spec fn sum_counts(s: Seq<(String, usize)>) -> nat
    decreases s.len(),
{
    if s.len() == 0 {
        0
    } else {
        (sum_counts(s.drop_last()) + s.last().1) as nat
    }
}

/// No two entries name the same author.
spec fn distinct_keys(s: Seq<(String, usize)>) -> bool {
    forall|i: int, j: int| 0 <= i < j < s.len() ==> (#[trigger] s[i]).0@ != (#[trigger] s[j]).0@
}

/// Per-author commit counts: author names unique, every count at least one.
pub struct ContributorTally {
    entries: Vec<(String, usize)>,
}

impl View for ContributorTally {
    type V = Map<Seq<char>, nat>;

    closed spec fn view(&self) -> Map<Seq<char>, nat> {
        as_tally_map(self.entries@)
    }
}

proof fn lemma_tally_map_dom(s: Seq<(String, usize)>)
    ensures
        as_tally_map(s).dom().finite(),
        forall|k: Seq<char>|
            as_tally_map(s).dom().contains(k) <==> (exists|i: int|
                0 <= i < s.len() && (#[trigger] s[i]).0@ == k),
    decreases s.len(),
{
    if s.len() == 0 {
    } else {
        lemma_tally_map_dom(s.drop_last());
        assert forall|k: Seq<char>| as_tally_map(s).dom().contains(k) implies (exists|i: int|
            0 <= i < s.len() && (#[trigger] s[i]).0@ == k) by {
            if k == s.last().0@ {
                assert(s[s.len() - 1].0@ == k);
            } else {
                let i = choose|i: int| 0 <= i < s.drop_last().len() && (#[trigger] s.drop_last()[i]).0@ == k;
                assert(s[i].0@ == k);
            }
        }
        assert forall|k: Seq<char>|
            (exists|i: int| 0 <= i < s.len() && (#[trigger] s[i]).0@ == k) implies as_tally_map(
            s,
        ).dom().contains(k) by {
            let i = choose|i: int| 0 <= i < s.len() && (#[trigger] s[i]).0@ == k;
            if i < s.len() - 1 {
                assert(s.drop_last()[i].0@ == k);
            }
        }
    }
}

proof fn lemma_tally_map_index(s: Seq<(String, usize)>, i: int)
    requires
        distinct_keys(s),
        0 <= i < s.len(),
    ensures
        as_tally_map(s).dom().contains(s[i].0@),
        as_tally_map(s)[s[i].0@] == s[i].1 as nat,
    decreases s.len(),
{
    lemma_tally_map_dom(s);
    if i == s.len() - 1 {
    } else {
        assert(distinct_keys(s.drop_last())) by {
            assert forall|p: int, q: int|
                0 <= p < q < s.drop_last().len() implies (#[trigger] s.drop_last()[p]).0@ != (
            #[trigger] s.drop_last()[q]).0@ by {
                assert(s[p].0@ != s[q].0@);
            }
        }
        assert(s.drop_last()[i] == s[i]);
        lemma_tally_map_index(s.drop_last(), i);
        assert(s[i].0@ != s.last().0@);
    }
}

proof fn lemma_distinct_drop_last(s: Seq<(String, usize)>)
    requires
        distinct_keys(s),
        s.len() > 0,
    ensures
        distinct_keys(s.drop_last()),
{
    assert forall|p: int, q: int|
        0 <= p < q < s.drop_last().len() implies (#[trigger] s.drop_last()[p]).0@ != (
    #[trigger] s.drop_last()[q]).0@ by {
        assert(s[p].0@ != s[q].0@);
    }
}

proof fn lemma_sum_update(s: Seq<(String, usize)>, i: int, p: (String, usize))
    requires
        0 <= i < s.len(),
    ensures
        sum_counts(s.update(i, p)) + s[i].1 == sum_counts(s) + p.1,
    decreases s.len(),
{
    let t = s.update(i, p);
    if i == s.len() - 1 {
        assert(t.drop_last() =~= s.drop_last());
        assert(t.last() == p);
    } else {
        assert(t.drop_last() =~= s.drop_last().update(i, p));
        assert(t.last() == s.last());
        lemma_sum_update(s.drop_last(), i, p);
    }
}

proof fn lemma_entry_le_sum(s: Seq<(String, usize)>, i: int)
    requires
        0 <= i < s.len(),
    ensures
        s[i].1 <= sum_counts(s),
    decreases s.len(),
{
    if i == s.len() - 1 {
    } else {
        assert(s.drop_last()[i] == s[i]);
        lemma_entry_le_sum(s.drop_last(), i);
    }
}

proof fn lemma_tally_map_update(s: Seq<(String, usize)>, i: int, p: (String, usize))
    requires
        distinct_keys(s),
        0 <= i < s.len(),
        p.0@ == s[i].0@,
    ensures
        as_tally_map(s.update(i, p)) == as_tally_map(s).insert(p.0@, p.1 as nat),
    decreases s.len(),
{
    let t = s.update(i, p);
    if i == s.len() - 1 {
        assert(t.drop_last() =~= s.drop_last());
        assert(t.last() == p);
        assert(as_tally_map(s.drop_last()).insert(s.last().0@, s.last().1 as nat).insert(
            p.0@,
            p.1 as nat,
        ) =~= as_tally_map(s.drop_last()).insert(p.0@, p.1 as nat));
    } else {
        assert(t.drop_last() =~= s.drop_last().update(i, p));
        assert(t.last() == s.last());
        lemma_distinct_drop_last(s);
        assert(s.drop_last()[i] == s[i]);
        lemma_tally_map_update(s.drop_last(), i, p);
        assert(s[i].0@ != s.last().0@);
        assert(as_tally_map(s.drop_last()).insert(p.0@, p.1 as nat).insert(
            s.last().0@,
            s.last().1 as nat,
        ) =~= as_tally_map(s.drop_last()).insert(s.last().0@, s.last().1 as nat).insert(
            p.0@,
            p.1 as nat,
        ));
    }
}

proof fn lemma_tally_map_len(s: Seq<(String, usize)>)
    requires
        distinct_keys(s),
    ensures
        as_tally_map(s).dom().finite(),
        as_tally_map(s).dom().len() == s.len(),
    decreases s.len(),
{
    lemma_tally_map_dom(s);
    if s.len() == 0 {
    } else {
        lemma_distinct_drop_last(s);
        lemma_tally_map_len(s.drop_last());
        lemma_tally_map_dom(s.drop_last());
        let rest = as_tally_map(s.drop_last());
        assert(!rest.dom().contains(s.last().0@)) by {
            if rest.dom().contains(s.last().0@) {
                let i = choose|i: int|
                    0 <= i < s.drop_last().len() && (#[trigger] s.drop_last()[i]).0@ == s.last().0@;
                assert(s[i].0@ == s[s.len() - 1].0@);
            }
        }
        assert(as_tally_map(s).dom() =~= rest.dom().insert(s.last().0@));
        vstd::set::axiom_set_insert_len(rest.dom(), s.last().0@);
    }
}

impl ContributorTally {
    /// Author names are pairwise distinct and every count is at least one.
    pub closed spec fn wf(&self) -> bool {
        &&& distinct_keys(self.entries@)
        &&& forall|i: int| 0 <= i < self.entries@.len() ==> (#[trigger] self.entries@[i]).1 >= 1
    }

    /// The sum of all per-author counts.
    pub closed spec fn spec_total(&self) -> nat {
        sum_counts(self.entries@)
    }

    /// An empty tally.
    pub fn new() -> (t: ContributorTally)
        ensures
            t@ == Map::<Seq<char>, nat>::empty(),
            t.wf(),
            t.spec_total() == 0,
    {
        ContributorTally { entries: Vec::new() }
    }

    /// The number of distinct contributors.
    pub fn len(&self) -> (n: usize)
        ensures
            self.wf() ==> n == self@.dom().len(),
    {
        proof {
            if self.wf() {
                lemma_tally_map_len(self.entries@);
            }
        }
        self.entries.len()
    }

    /// The count tallied for one author, where the author is present.
    pub fn get(&self, name: &String) -> (r: Option<usize>)
        ensures
            self.wf() ==> match r {
                Option::Some(c) => self@.dom().contains(name@) && self@[name@] == c as nat && c
                    >= 1,
                Option::None => !self@.dom().contains(name@),
            },
    {
        proof {
            lemma_tally_map_dom(self.entries@);
        }
        let n = self.entries.len();
        let mut i: usize = 0;
        while i < n
            invariant
                n == self.entries@.len(),
                i <= n,
                forall|j: int| 0 <= j < i ==> (#[trigger] self.entries@[j]).0@ != name@,
            decreases n - i,
        {
            if self.entries[i].0 == *name {
                proof {
                    if self.wf() {
                        lemma_tally_map_index(self.entries@, i as int);
                    }
                }
                return Option::Some(self.entries[i].1);
            }
            i = i + 1;
        }
        Option::None
    }

    /// The tallied authors with their counts, one entry per author.
    pub fn entries(&self) -> (r: &Vec<(String, usize)>)
        ensures
            self.wf() ==> r@.len() == self@.dom().len(),
            self.wf() ==> forall|i: int|
                0 <= i < r@.len() ==> self@.dom().contains((#[trigger] r@[i]).0@) && self@[r@[i].0@]
                    == r@[i].1 as nat,
    {
        proof {
            if self.wf() {
                lemma_tally_map_len(self.entries@);
                assert forall|i: int| 0 <= i < self.entries@.len() implies self@.dom().contains(
                    (#[trigger] self.entries@[i]).0@,
                ) && self@[self.entries@[i].0@] == self.entries@[i].1 as nat by {
                    lemma_tally_map_index(self.entries@, i);
                }
            }
        }
        &self.entries
    }

    /// Counts one more commit for the given author.
    pub fn bump(&mut self, name: String)
        requires
            old(self).wf(),
            old(self).spec_total() < usize::MAX,
        ensures
            final(self).wf(),
            final(self)@ == spec_bump(old(self)@, name@),
            final(self).spec_total() == old(self).spec_total() + 1,
    {
        proof {
            lemma_tally_map_dom(self.entries@);
        }
        let ghost s0 = self.entries@;
        let n = self.entries.len();
        let mut i: usize = 0;
        while i < n
            invariant
                self.entries@ == s0,
                old(self).entries@ == s0,
                n == s0.len(),
                i <= n,
                distinct_keys(s0),
                forall|j: int| 0 <= j < s0.len() ==> (#[trigger] s0[j]).1 >= 1,
                sum_counts(s0) < usize::MAX,
                forall|j: int| 0 <= j < i ==> (#[trigger] s0[j]).0@ != name@,
            decreases n - i,
        {
            if self.entries[i].0 == name {
                let c = self.entries[i].1;
                proof {
                    lemma_entry_le_sum(s0, i as int);
                    lemma_tally_map_index(s0, i as int);
                }
                self.entries[i] = (name, c + 1);
                proof {
                    lemma_tally_map_update(s0, i as int, self.entries@[i as int]);
                    lemma_sum_update(s0, i as int, self.entries@[i as int]);
                    assert forall|p: int, q: int|
                        0 <= p < q < self.entries@.len() implies (
                    #[trigger] self.entries@[p]).0@ != (#[trigger] self.entries@[q]).0@ by {
                        assert(s0[p].0@ != s0[q].0@);
                    }
                }
                return ;
            }
            i = i + 1;
        }
        self.entries.push((name, 1));
        proof {
            assert(self.entries@.drop_last() =~= s0);
            assert(self.entries@.last() == (name, 1usize));
            assert(!as_tally_map(s0).dom().contains(name@));
            assert forall|p: int, q: int|
                0 <= p < q < self.entries@.len() implies (#[trigger] self.entries@[p]).0@ != (
            #[trigger] self.entries@[q]).0@ by {
                if q < s0.len() {
                    assert(s0[p].0@ != s0[q].0@);
                } else {
                    assert(s0[p].0@ != name@);
                }
            }
        }
    }
}

/// The exec tally label of one commit item; a clone of the author name, or
/// the sentinel where the walk counts the commit under no recorded author.
fn label_of(item: &CommitItem) -> (r: Option<String>)
    ensures
        match r {
            Option::Some(l) => spec_label(*item) == Option::Some(l@),
            Option::None => spec_label(*item) == Option::<Seq<char>>::None,
        },
{
    match item {
        CommitItem::Unreadable => Option::None,
        CommitItem::Authored(name) => match name {
            Option::Some(n) => {
                if n.as_str().is_empty() {
                    Option::Some("Unknown".to_owned())
                } else {
                    Option::Some(n.clone())
                }
            },
            Option::None => Option::Some("Unknown".to_owned()),
        },
    }
}

/// Walks the items of one ancestry traversal: counts every loadable commit,
/// tallies it under its author's label, and skips unreadable ones. The commit
/// count always equals the sum of the per-author counts.
pub fn walk_history(items: &Vec<CommitItem>) -> (r: (usize, ContributorTally))
    ensures
        r.0 == spec_commit_count(items@),
        r.1@ == spec_tally(items@),
        r.1.wf(),
        r.0 == r.1.spec_total(),
{
    let mut count: usize = 0;
    let mut tally = ContributorTally::new();
    let n = items.len();
    let mut i: usize = 0;
    while i < n
        invariant
            n == items@.len(),
            i <= n,
            count <= i,
            count == spec_commit_count(items@.subrange(0, i as int)),
            tally@ == spec_tally(items@.subrange(0, i as int)),
            tally.wf(),
            count == tally.spec_total(),
        decreases n - i,
    {
        let label = label_of(&items[i]);
        proof {
            assert(items@.subrange(0, i as int + 1).drop_last() =~= items@.subrange(0, i as int));
            assert(items@.subrange(0, i as int + 1).last() == items@[i as int]);
        }
        match label {
            Option::Some(l) => {
                tally.bump(l);
                count = count + 1;
            },
            Option::None => {},
        }
        i = i + 1;
    }
    proof {
        assert(items@.subrange(0, n as int) =~= items@);
    }
    (count, tally)
}

} // verus!
