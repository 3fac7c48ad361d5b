//! The error tally: how often each error description occurred in a run.
use vstd::prelude::*;

verus! {

/// The map that a list of `(description, count)` entries stands for.
pub open spec fn entries_map(s: Seq<(String, u64)>) -> Map<Seq<char>, nat>
    decreases s.len(),
{
    if s.len() == 0 {
        Map::empty()
    } else {
        entries_map(s.drop_last()).insert(s.last().0@, s.last().1 as nat)
    }
}

/// No description occurs in two entries.
pub open spec fn keys_unique(s: Seq<(String, u64)>) -> bool {
    forall|i: int, j: int| 0 <= i < s.len() && 0 <= j < s.len() && i != j ==> s[i].0@ != s[j].0@
}

/// The tally after one more occurrence of `key`.
pub open spec fn bump(m: Map<Seq<char>, nat>, key: Seq<char>) -> Map<Seq<char>, nat> {
    m.insert(key, if m.contains_key(key) { (m[key] + 1) as nat } else { 1 })
}

proof fn lemma_absent(s: Seq<(String, u64)>, k: Seq<char>)
    requires
        forall|i: int| 0 <= i < s.len() ==> s[i].0@ != k,
    ensures
        !entries_map(s).contains_key(k),
    decreases s.len(),
{
    if s.len() > 0 {
        lemma_absent(s.drop_last(), k);
    }
}

proof fn lemma_key_present(s: Seq<(String, u64)>, k: Seq<char>)
    requires
        entries_map(s).contains_key(k),
    ensures
        exists|i: int| 0 <= i < s.len() && #[trigger] s[i].0@ == k,
    decreases s.len(),
{
    if s.last().0@ != k {
        lemma_key_present(s.drop_last(), k);
        let i = choose|i: int| 0 <= i < s.drop_last().len() && #[trigger] s.drop_last()[i].0@ == k;
        assert(s[i].0@ == k);
    } else {
        assert(s[s.len() - 1].0@ == k);
    }
}

proof fn lemma_at(s: Seq<(String, u64)>, i: int)
    requires
        keys_unique(s),
        0 <= i < s.len(),
    ensures
        entries_map(s).contains_key(s[i].0@),
        entries_map(s)[s[i].0@] == s[i].1 as nat,
    decreases s.len(),
{
    if i < s.len() - 1 {
        lemma_at(s.drop_last(), i);
    }
}

proof fn lemma_update(s: Seq<(String, u64)>, i: int, v: u64)
    requires
        keys_unique(s),
        0 <= i < s.len(),
    ensures
        entries_map(s.update(i, (s[i].0, v))) == entries_map(s).insert(s[i].0@, v as nat),
    decreases s.len(),
{
    let t = s.update(i, (s[i].0, v));
    if i == s.len() - 1 {
        assert(t.drop_last() =~= s.drop_last());
        let k = s[i].0@;
        assert forall|j: int| 0 <= j < s.drop_last().len() implies s.drop_last()[j].0@ != k by {}
        lemma_absent(s.drop_last(), k);
        assert(entries_map(t) =~= entries_map(s).insert(k, v as nat));
    } else {
        lemma_update(s.drop_last(), i, v);
        assert(t.drop_last() =~= s.drop_last().update(i, (s[i].0, v)));
        assert(entries_map(t) =~= entries_map(s).insert(s[i].0@, v as nat));
    }
}

proof fn lemma_dom_len(s: Seq<(String, u64)>)
    requires
        keys_unique(s),
    ensures
        entries_map(s).len() == s.len(),
        entries_map(s).dom().finite(),
    decreases s.len(),
{
    if s.len() > 0 {
        let p = s.drop_last();
        lemma_dom_len(p);
        assert forall|j: int| 0 <= j < p.len() implies p[j].0@ != s.last().0@ by {
            assert(s[j].0@ != s[s.len() - 1].0@);
        }
        lemma_absent(p, s.last().0@);
    }
}

/// Occurrence counts by error description; each description is one entry.
pub struct ErrorTally {
    entries: Vec<(String, u64)>,
}

impl ErrorTally {
    /// Counts by description.
    pub closed spec fn view(&self) -> Map<Seq<char>, nat> {
        entries_map(self.entries@)
    }

    pub closed spec fn wf(&self) -> bool {
        keys_unique(self.entries@)
    }

    /// The descriptions, in the order in which `entry` gives them.
    pub closed spec fn keys(&self) -> Seq<Seq<char>> {
        self.entries@.map_values(|e: (String, u64)| e.0@)
    }

    /// The keys are the tally's descriptions, each once.
    pub proof fn lemma_keys(&self)
        requires
            self.wf(),
        ensures
            self.keys().len() == self@.len(),
            self.keys().no_duplicates(),
            forall|i: int| 0 <= i < self.keys().len() ==> self@.contains_key(#[trigger] self.keys()[i]),
            forall|k: Seq<char>| #[trigger] self@.contains_key(k) ==> self.keys().contains(k),
    {
        lemma_dom_len(self.entries@);
        assert forall|i: int| 0 <= i < self.keys().len() implies self@.contains_key(#[trigger] self.keys()[i]) by {
            lemma_at(self.entries@, i);
        }
        assert forall|k: Seq<char>| #[trigger] self@.contains_key(k) implies self.keys().contains(k) by {
            lemma_key_present(self.entries@, k);
            let i = choose|i: int| 0 <= i < self.entries@.len() && #[trigger] self.entries@[i].0@ == k;
            assert(self.keys()[i] == k);
        }
    }

    /// A tally with no entry.
    pub fn new() -> (r: ErrorTally)
        ensures
            r.wf(),
            r@ == Map::<Seq<char>, nat>::empty(),
    {
        ErrorTally { entries: Vec::new() }
    }

    /// The number of distinct descriptions.
    pub fn len(&self) -> (r: usize)
        requires
            self.wf(),
        ensures
            r == self@.len(),
    {
        proof {
            lemma_dom_len(self.entries@);
        }
        self.entries.len()
    }

    /// How often `description` was counted; zero if never.
    pub fn count_of(&self, description: &String) -> (r: u64)
        requires
            self.wf(),
        ensures
            r == (if self@.contains_key(description@) { self@[description@] } else { 0 }),
    {
        let mut i: usize = 0;
        while i < self.entries.len()
            invariant
                0 <= i <= self.entries.len(),
                keys_unique(self.entries@),
                forall|j: int| 0 <= j < i ==> self.entries[j].0@ != description@,
            decreases self.entries.len() - i,
        {
            if self.entries[i].0 == *description {
                proof {
                    lemma_at(self.entries@, i as int);
                }
                return self.entries[i].1;
            }
            i = i + 1;
        }
        proof {
            lemma_absent(self.entries@, description@);
        }
        0
    }

    /// The description and count of entry `i`, in the order of `keys`.
    pub fn entry(&self, i: usize) -> (r: (&String, u64))
        requires
            self.wf(),
            i < self@.len(),
        ensures
            r.0@ == self.keys()[i as int],
            self@.contains_key(r.0@),
            self@[r.0@] == r.1,
    {
        proof {
            lemma_dom_len(self.entries@);
            lemma_at(self.entries@, i as int);
        }
        (&self.entries[i].0, self.entries[i].1)
    }

    /// Counts one more occurrence of `description`.
    pub fn add(&mut self, description: &String)
        requires
            old(self).wf(),
            old(self)@.contains_key(description@) ==> old(self)@[description@] < u64::MAX,
        ensures
            final(self).wf(),
            final(self)@ == bump(old(self)@, description@),
    {
        let mut i: usize = 0;
        while i < self.entries.len()
            invariant
                0 <= i <= self.entries.len(),
                self.entries@ == old(self).entries@,
                old(self)@.contains_key(description@) ==> old(self)@[description@] < u64::MAX,
                keys_unique(self.entries@),
                forall|j: int| 0 <= j < i ==> self.entries[j].0@ != description@,
            decreases self.entries.len() - i,
        {
            if self.entries[i].0 == *description {
                proof {
                    lemma_at(self.entries@, i as int);
                    lemma_update(self.entries@, i as int, (self.entries[i as int].1 + 1) as u64);
                }
                let c = self.entries[i].1;
                assert(c < u64::MAX);
                let key = self.entries[i].0.clone();
                let ghost before = self.entries@;
                self.entries.set(i, (key, c + 1));
                assert(self.entries@ == before.update(i as int, (before[i as int].0, (c + 1) as u64)));
                assert(keys_unique(self.entries@)) by {
                    assert forall|a: int, b: int| 0 <= a < self.entries@.len() && 0 <= b < self.entries@.len() && a != b
                        implies self.entries@[a].0@ != self.entries@[b].0@ by {
                        assert(before[a].0@ != before[b].0@);
                    }
                }
                return;
            }
            i = i + 1;
        }
        proof {
            lemma_absent(self.entries@, description@);
        }
        let ghost before = self.entries@;
        self.entries.push((description.clone(), 1));
        assert(self.entries@.drop_last() =~= before);
        assert(keys_unique(self.entries@)) by {
            assert forall|a: int, b: int| 0 <= a < self.entries@.len() && 0 <= b < self.entries@.len() && a != b
                implies self.entries@[a].0@ != self.entries@[b].0@ by {
                if a < before.len() && b < before.len() {
                    assert(before[a].0@ != before[b].0@);
                }
            }
        }
    }
}

} // verus!
