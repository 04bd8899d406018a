//! The table of console scripts a project declares: script name to target
//! (`module:function`). No name occurs twice; inserting a name that is
//! present replaces its target.

use vstd::prelude::*;
use vstd::set_lib::lemma_subset_equality;
use vstd::std_specs::cmp::PartialEqSpecImpl;
use crate::text::str_eq;

verus! {

/// Script names and targets; every name occurs once. Two tables are equal
/// when they map the same names to the same targets, whatever order the
/// names were inserted in.
#[derive(Debug, Eq)]
pub struct ScriptTable {
    entries: Vec<(String, String)>,
}

/// The map that a list of entries stands for (a later entry wins).
pub open spec fn entries_map(e: Seq<(String, String)>) -> Map<Seq<char>, Seq<char>>
    decreases e.len(),
{
    if e.len() == 0 {
        Map::empty()
    } else {
        entries_map(e.drop_last()).insert(e.last().0@, e.last().1@)
    }
}

/// No two entries have the same name.
pub open spec fn distinct_names(e: Seq<(String, String)>) -> bool {
    forall|i: int, j: int| 0 <= i < e.len() && 0 <= j < e.len() && i != j ==> e[i].0@ != e[j].0@
}

/// With distinct names, the map holds exactly the entries' names, each with
/// its entry's target, and has as many keys as there are entries.
pub proof fn lemma_entries_map(e: Seq<(String, String)>)
    requires
        distinct_names(e),
    ensures
        forall|i: int|
            0 <= i < e.len() ==> #[trigger] entries_map(e).contains_key(e[i].0@) && entries_map(
                e,
            )[e[i].0@] == e[i].1@,
        forall|k: Seq<char>|
            #[trigger] entries_map(e).contains_key(k) ==> exists|i: int|
                0 <= i < e.len() && e[i].0@ == k,
        entries_map(e).dom().finite(),
        entries_map(e).dom().len() == e.len(),
    decreases e.len(),
{
    if e.len() > 0 {
        let p = e.drop_last();
        assert(distinct_names(p));
        lemma_entries_map(p);
        let last = e.last();
        assert(!entries_map(p).contains_key(last.0@)) by {
            if entries_map(p).contains_key(last.0@) {
                let i = choose|i: int| 0 <= i < p.len() && p[i].0@ == last.0@;
                assert(e[i].0@ == e[e.len() - 1].0@);
            }
        }
        assert forall|i: int|
            0 <= i < e.len() implies #[trigger] entries_map(e).contains_key(e[i].0@) && entries_map(
            e,
        )[e[i].0@] == e[i].1@ by {
            if i < e.len() - 1 {
                assert(e[i] == p[i]);
                assert(e[i].0@ != last.0@);
            }
        }
        assert forall|k: Seq<char>| #[trigger]
            entries_map(e).contains_key(k) implies exists|i: int| 0 <= i < e.len() && e[i].0@ == k by {
            if k != last.0@ {
                assert(entries_map(p).contains_key(k));
                let i = choose|i: int| 0 <= i < p.len() && p[i].0@ == k;
                assert(e[i] == p[i]);
            } else {
                assert(e[e.len() - 1].0@ == k);
            }
        }
    }
}

impl ScriptTable {
    #[verifier::type_invariant]
    spec fn names_are_distinct(self) -> bool {
        distinct_names(self.entries@)
    }

    /// The table as a map from name to target.
    pub closed spec fn spec_map(self) -> Map<Seq<char>, Seq<char>> {
        entries_map(self.entries@)
    }

    /// An empty table.
    pub fn new() -> (t: Self)
        ensures
            t@ == Map::<Seq<char>, Seq<char>>::empty(),
    {
        ScriptTable { entries: Vec::new() }
    }

    /// The number of scripts.
    pub fn len(&self) -> (n: usize)
        ensures
            n == self@.dom().len(),
            self@.dom().finite(),
    {
        proof {
            use_type_invariant(self);
            lemma_entries_map(self.entries@);
        }
        self.entries.len()
    }

    /// The target of script `name`.
    pub fn get(&self, name: &str) -> (r: Option<&String>)
        ensures
            match r {
                Some(t) => self@.contains_key(name@) && self@[name@] == t@,
                None => !self@.contains_key(name@),
            },
    {
        proof {
            use_type_invariant(self);
            lemma_entries_map(self.entries@);
        }
        let mut i: usize = 0;
        while i < self.entries.len()
            invariant
                i <= self.entries@.len(),
                distinct_names(self.entries@),
                forall|j: int| 0 <= j < i ==> self.entries@[j].0@ != name@,
            decreases self.entries@.len() - i,
        {
            if str_eq(self.entries[i].0.as_str(), name) {
                proof {
                    lemma_entries_map(self.entries@);
                }
                return Some(&self.entries[i].1);
            }
            i = i + 1;
        }
        proof {
            if self@.contains_key(name@) {
                let k = choose|k: int| 0 <= k < self.entries@.len() && self.entries@[k].0@ == name@;
                assert(self.entries@[k].0@ != name@);
            }
        }
        None
    }

    /// Sets the target of script `name`, replacing any target it had.
    pub fn insert(&mut self, name: String, target: String)
        ensures
            final(self)@ == old(self)@.insert(name@, target@),
    {
        proof {
            use_type_invariant(&*self);
            lemma_entries_map(self.entries@);
        }
        let mut i: usize = 0;
        while i < self.entries.len()
            invariant
                i <= self.entries@.len(),
                distinct_names(self.entries@),
                self.entries@ == old(self).entries@,
                forall|j: int| 0 <= j < i ==> self.entries@[j].0@ != name@,
            decreases self.entries@.len() - i,
        {
            if str_eq(self.entries[i].0.as_str(), name.as_str()) {
                let ghost old_entries = self.entries@;
                let ghost new_entries = old_entries.update(i as int, (name, target));
                proof {
                    lemma_entries_map(old_entries);
                    assert(distinct_names(new_entries)) by {
                        assert forall|a: int, b: int|
                            0 <= a < new_entries.len() && 0 <= b < new_entries.len() && a != b
                            implies new_entries[a].0@ != new_entries[b].0@ by {
                            if a != i && b != i {
                                assert(new_entries[a] == old_entries[a]);
                                assert(new_entries[b] == old_entries[b]);
                            } else if a == i {
                                assert(new_entries[b] == old_entries[b]);
                                assert(old_entries[b].0@ != old_entries[a].0@);
                            } else {
                                assert(new_entries[a] == old_entries[a]);
                                assert(old_entries[a].0@ != old_entries[b].0@);
                            }
                        }
                    }
                    lemma_entries_map(new_entries);
                    assert(entries_map(new_entries) =~= entries_map(old_entries).insert(
                        name@,
                        target@,
                    )) by {
                        assert forall|k: Seq<char>|
                            #[trigger] entries_map(new_entries).contains_key(k)
                                <==> entries_map(old_entries).insert(name@, target@).contains_key(
                                k,
                            ) by {
                            if entries_map(new_entries).contains_key(k) {
                                let j = choose|j: int|
                                    0 <= j < new_entries.len() && new_entries[j].0@ == k;
                                if j != i {
                                    assert(new_entries[j] == old_entries[j]);
                                }
                            }
                            if entries_map(old_entries).contains_key(k) {
                                let j = choose|j: int|
                                    0 <= j < old_entries.len() && old_entries[j].0@ == k;
                                if j != i {
                                    assert(new_entries[j] == old_entries[j]);
                                }
                                assert(entries_map(new_entries).contains_key(new_entries[j].0@));
                            }
                            assert(entries_map(new_entries).contains_key(new_entries[i as int].0@));
                        }
                        assert forall|k: Seq<char>| #[trigger]
                            entries_map(new_entries).contains_key(k) implies entries_map(
                            new_entries,
                        )[k] == entries_map(old_entries).insert(name@, target@)[k] by {
                            let j = choose|j: int|
                                0 <= j < new_entries.len() && new_entries[j].0@ == k;
                            if j != i {
                                assert(new_entries[j] == old_entries[j]);
                                assert(old_entries[j].0@ != old_entries[i as int].0@);
                            }
                        }
                    }
                }
                let mut entries: Vec<(String, String)> = Vec::new();
                std::mem::swap(&mut entries, &mut self.entries);
                entries.set(i, (name, target));
                assert(entries@ == new_entries);
                self.entries = entries;
                return;
            }
            i = i + 1;
        }
        let ghost old_entries = self.entries@;
        proof {
            assert(distinct_names(old_entries.push((name, target)))) by {
                assert forall|a: int, b: int|
                    0 <= a < old_entries.len() + 1 && 0 <= b < old_entries.len() + 1 && a != b
                    implies old_entries.push((name, target))[a].0@ != old_entries.push(
                    (name, target),
                )[b].0@ by {
                    if a < old_entries.len() && b < old_entries.len() {
                    } else if a == old_entries.len() {
                        assert(old_entries[b].0@ != name@);
                    } else {
                        assert(old_entries[a].0@ != name@);
                    }
                }
            }
            assert(old_entries.push((name, target)).drop_last() =~= old_entries);
        }
        let mut entries: Vec<(String, String)> = Vec::new();
        std::mem::swap(&mut entries, &mut self.entries);
        entries.push((name, target));
        self.entries = entries;
    }

    /// Some script of the table, or `None` when the table is empty.
    pub fn first(&self) -> (r: Option<(&String, &String)>)
        ensures
            match r {
                Some((n, t)) => self@.contains_key(n@) && self@[n@] == t@,
                None => self@.dom().len() == 0,
            },
    {
        proof {
            use_type_invariant(self);
            lemma_entries_map(self.entries@);
        }
        if self.entries.len() == 0 {
            None
        } else {
            Some((&self.entries[0].0, &self.entries[0].1))
        }
    }

    /// The entries, one per script.
    pub fn entries(&self) -> (e: &Vec<(String, String)>)
        ensures
            entries_map(e@) == self@,
            distinct_names(e@),
    {
        proof {
            use_type_invariant(self);
        }
        &self.entries
    }
}

impl Clone for ScriptTable {
    fn clone(&self) -> (r: Self)
        ensures
            r@ == self@,
    {
        proof {
            use_type_invariant(self);
        }
        let mut entries: Vec<(String, String)> = Vec::new();
        let mut i: usize = 0;
        while i < self.entries.len()
            invariant
                i <= self.entries@.len(),
                entries@ == self.entries@.subrange(0, i as int),
            decreases self.entries@.len() - i,
        {
            let name = self.entries[i].0.clone();
            let target = self.entries[i].1.clone();
            assert(self.entries@.subrange(0, i + 1) =~= self.entries@.subrange(0, i as int).push(
                (name, target),
            ));
            entries.push((name, target));
            i = i + 1;
        }
        assert(entries@ =~= self.entries@);
        ScriptTable { entries }
    }
}

impl View for ScriptTable {
    type V = Map<Seq<char>, Seq<char>>;

    open spec fn view(&self) -> Map<Seq<char>, Seq<char>> {
        self.spec_map()
    }
}

impl PartialEq for ScriptTable {
    fn eq(&self, other: &Self) -> (r: bool) {
        proof {
            use_type_invariant(self);
            use_type_invariant(other);
            lemma_entries_map(self.entries@);
            lemma_entries_map(other.entries@);
        }
        if self.entries.len() != other.entries.len() {
            return false;
        }
        let mut i: usize = 0;
        while i < self.entries.len()
            invariant
                i <= self.entries@.len(),
                self.entries@.len() == other.entries@.len(),
                distinct_names(self.entries@),
                distinct_names(other.entries@),
                forall|j: int|
                    0 <= j < i ==> #[trigger] other@.contains_key(self.entries@[j].0@) && other@[self.entries@[j].0@]
                        == self.entries@[j].1@,
            decreases self.entries@.len() - i,
        {
            match other.get(self.entries[i].0.as_str()) {
                Some(t) => {
                    if !str_eq(t.as_str(), self.entries[i].1.as_str()) {
                        proof {
                            lemma_entries_map(self.entries@);
                            assert(entries_map(self.entries@).contains_key(self.entries@[i as int].0@));
                        }
                        return false;
                    }
                },
                None => {
                    proof {
                        lemma_entries_map(self.entries@);
                        assert(entries_map(self.entries@).contains_key(self.entries@[i as int].0@));
                    }
                    return false;
                },
            }
            assert forall|j: int| 0 <= j < i + 1 implies #[trigger] other@.contains_key(
                self.entries@[j].0@,
            ) && other@[self.entries@[j].0@] == self.entries@[j].1@ by {
                if j == i {
                    assert(other@.contains_key(self.entries@[i as int].0@));
                }
            }
            i = i + 1;
        }
        proof {
            lemma_entries_map(self.entries@);
            lemma_entries_map(other.entries@);
            assert forall|k: Seq<char>| #[trigger] self@.contains_key(k) implies other@.contains_key(k)
                && other@[k] == self@[k] by {
                let j = choose|j: int| 0 <= j < self.entries@.len() && self.entries@[j].0@ == k;
                assert(other@.contains_key(self.entries@[j].0@));
            }
            lemma_subset_equality(self@.dom(), other@.dom());
            assert(self@ =~= other@);
        }
        true
    }
}

impl PartialEqSpecImpl for ScriptTable {
    open spec fn obeys_eq_spec() -> bool {
        true
    }

    open spec fn eq_spec(&self, other: &ScriptTable) -> bool {
        self@ == other@
    }
}

} // verus!
