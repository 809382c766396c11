//! The registry: algorithm names mapped to their flags and entry points.

use vstd::prelude::*;
use crate::flags::HashFlags;
use crate::function::HashFunction;
use crate::names::{
    compare_names, lemma_name_lt_irreflexive, lemma_name_lt_total, lemma_name_lt_transitive, name_lt,
};

verus! {

/// What a registration records under a name: the capability flags and the entry point.
pub type Record = (HashFlags, HashFunction);

/// One registration: a name, its flags and its entry point.
pub struct Entry {
    pub name: String,
    pub flags: HashFlags,
    pub function: HashFunction,
}

impl Entry {
    pub open spec fn view(&self) -> (Seq<char>, Record) {
        (self.name@, (self.flags, self.function))
    }

    pub fn new(name: &str, flags: HashFlags, function: HashFunction) -> (r: Self)
        ensures
            r.name@ == name@,
            r.flags == flags,
            r.function == function,
    {
        Entry { name: String::from_str(name), flags, function }
    }
}

/// The table that registrations build, each later one replacing an earlier one of
/// the same name.
pub open spec fn apply_registrations(
    table: Map<Seq<char>, Record>,
    regs: Seq<(Seq<char>, Record)>,
) -> Map<Seq<char>, Record>
    decreases regs.len(),
{
    if regs.len() == 0 {
        table
    } else {
        apply_registrations(table, regs.drop_last()).insert(regs.last().0, regs.last().1)
    }
}

/// The table from algorithm names to their flags and entry points. Names are unique;
/// registering a name again replaces its record.
pub struct Registry {
    entries: Vec<Entry>,
    table: Ghost<Map<Seq<char>, Record>>,
}

impl Registry {
    pub closed spec fn view(&self) -> Map<Seq<char>, Record> {
        self.table@
    }

    pub closed spec fn wf(&self) -> bool {
        &&& forall|i: int, j: int|
            0 <= i < j < self.entries@.len() ==> name_lt(
                #[trigger] self.entries@[i].name@,
                #[trigger] self.entries@[j].name@,
            )
        &&& forall|i: int|
            0 <= i < self.entries@.len() ==> self.table@.contains_key(
                (#[trigger] self.entries@[i]).name@,
            ) && self.table@[self.entries@[i].name@] == (
                self.entries@[i].flags,
                self.entries@[i].function,
            )
        &&& forall|k: Seq<char>|
            #[trigger] self.table@.contains_key(k) ==> exists|i: int|
                0 <= i < self.entries@.len() && self.entries@[i].name@ == k
    }

    /// An empty registry.
    pub fn new() -> (r: Self)
        ensures
            r.wf(),
            r@ == Map::<Seq<char>, Record>::empty(),
    {
        Registry { entries: Vec::new(), table: Ghost(Map::empty()) }
    }

    /// Removes every registration.
    pub fn clear(&mut self)
        ensures
            final(self).wf(),
            final(self)@ == Map::<Seq<char>, Record>::empty(),
    {
        self.entries.clear();
        self.table = Ghost(Map::empty());
    }

    /// Records `name` with its flags and entry point, replacing any earlier record of
    /// that name.
    pub fn insert_or_replace(&mut self, name: String, flags: HashFlags, function: HashFunction)
        requires
            old(self).wf(),
        ensures
            final(self).wf(),
            final(self)@ == old(self)@.insert(name@, (flags, function)),
    {
        let n = self.entries.len();
        let mut i: usize = 0;
        let mut searching = true;
        while searching && i < n
            invariant
                n == self.entries@.len(),
                i <= n,
                forall|k: int| 0 <= k < i ==> name_lt(self.entries@[k].name@, name@),
                !searching ==> i < n && !name_lt(self.entries@[i as int].name@, name@),
            decreases (n - i) + (if searching { 1int } else { 0int }),
        {
            if compare_names(self.entries[i].name.as_str(), name.as_str()) >= 0 {
                searching = false;
            } else {
                i = i + 1;
            }
        }
        let c: i8 = if i < n {
            compare_names(self.entries[i].name.as_str(), name.as_str())
        } else {
            1
        };
        proof {
            if i < n && self.entries@[i as int].name@ != name@ {
                lemma_name_lt_total(self.entries@[i as int].name@, name@);
            }
        }
        let ghost old_entries = self.entries@;
        let ghost new_table = self.table@.insert(name@, (flags, function));
        proof {
            lemma_name_lt_irreflexive(name@);
        }
        if i < n && c == 0 {
            self.entries.set(i, Entry { name, flags, function });
            self.table = Ghost(new_table);
            proof {
                assert forall|a: int, b: int|
                    0 <= a < b < self.entries@.len() implies name_lt(
                    #[trigger] self.entries@[a].name@,
                    #[trigger] self.entries@[b].name@,
                ) by {
                    assert(name_lt(old_entries[a].name@, old_entries[b].name@));
                }
                assert forall|a: int| 0 <= a < self.entries@.len() implies self.table@.contains_key(
                    (#[trigger] self.entries@[a]).name@,
                ) && self.table@[self.entries@[a].name@] == (
                    self.entries@[a].flags,
                    self.entries@[a].function,
                ) by {
                    if a < i {
                        assert(name_lt(old_entries[a].name@, old_entries[i as int].name@));
                    } else if a > i {
                        assert(name_lt(old_entries[i as int].name@, old_entries[a].name@));
                    }
                }
                assert forall|k: Seq<char>| #[trigger] self.table@.contains_key(k) implies exists|
                    a: int,
                | 0 <= a < self.entries@.len() && self.entries@[a].name@ == k by {
                    if k != name@ {
                        let a = choose|a: int| 0 <= a < old_entries.len() && old_entries[a].name@ == k;
                        assert(self.entries@[a].name@ == k);
                    } else {
                        assert(self.entries@[i as int].name@ == k);
                    }
                }
            }
        } else {
            self.entries.insert(i, Entry { name, flags, function });
            self.table = Ghost(new_table);
            proof {
                let nm = self.entries@[i as int].name@;
                assert forall|a: int, b: int|
                    0 <= a < b < self.entries@.len() implies name_lt(
                    #[trigger] self.entries@[a].name@,
                    #[trigger] self.entries@[b].name@,
                ) by {
                    if b < i {
                        assert(name_lt(old_entries[a].name@, old_entries[b].name@));
                    } else if b == i {
                    } else if a < i {
                        assert(name_lt(old_entries[a].name@, old_entries[b - 1].name@));
                    } else if a == i {
                        if b - 1 > i {
                            assert(name_lt(old_entries[i as int].name@, old_entries[b - 1].name@));
                            lemma_name_lt_transitive(nm, old_entries[i as int].name@, old_entries[b - 1].name@);
                        }
                    } else {
                        assert(name_lt(old_entries[a - 1].name@, old_entries[b - 1].name@));
                    }
                }
                assert forall|a: int| 0 <= a < self.entries@.len() implies self.table@.contains_key(
                    (#[trigger] self.entries@[a]).name@,
                ) && self.table@[self.entries@[a].name@] == (
                    self.entries@[a].flags,
                    self.entries@[a].function,
                ) by {
                    if a < i {
                        assert(self.entries@[a] == old_entries[a]);
                    } else if a > i {
                        assert(self.entries@[a] == old_entries[a - 1]);
                        if a - 1 > i {
                            assert(name_lt(old_entries[i as int].name@, old_entries[a - 1].name@));
                            lemma_name_lt_transitive(nm, old_entries[i as int].name@, old_entries[a - 1].name@);
                        }
                    }
                }
                assert forall|k: Seq<char>| #[trigger] self.table@.contains_key(k) implies exists|
                    a: int,
                | 0 <= a < self.entries@.len() && self.entries@[a].name@ == k by {
                    if k != name@ {
                        let a = choose|a: int| 0 <= a < old_entries.len() && old_entries[a].name@ == k;
                        if a < i {
                            assert(self.entries@[a].name@ == k);
                        } else {
                            assert(self.entries@[a + 1].name@ == k);
                        }
                    } else {
                        assert(self.entries@[i as int].name@ == k);
                    }
                }
            }
        }
    }

    /// The record under `name`, or `None` where no algorithm of that name is
    /// registered.
    pub fn lookup(&self, name: &str) -> (r: Option<Record>)
        requires
            self.wf(),
        ensures
            r is Some <==> self@.contains_key(name@),
            r is Some ==> r->0 == self@[name@],
    {
        let n = self.entries.len();
        let mut i: usize = 0;
        while i < n
            invariant
                self.wf(),
                n == self.entries@.len(),
                i <= n,
                forall|k: int| 0 <= k < i ==> self.entries@[k].name@ != name@,
            decreases n - i,
        {
            let e = &self.entries[i];
            if compare_names(e.name.as_str(), name) == 0 {
                assert(self.entries@[i as int].name@ == name@);
                assert(self.table@.contains_key(self.entries@[i as int].name@));
                return Some((e.flags, e.function));
            }
            i = i + 1;
        }
        None
    }

    /// The registered names, in order.
    pub fn list_names(&self) -> (r: Vec<String>)
        requires
            self.wf(),
        ensures
            forall|i: int, j: int| 0 <= i < j < r@.len() ==> name_lt(r@[i]@, r@[j]@),
            forall|k: Seq<char>|
                self@.contains_key(k) <==> exists|i: int| 0 <= i < r@.len() && r@[i]@ == k,
    {
        let n = self.entries.len();
        let mut r: Vec<String> = Vec::new();
        let mut i: usize = 0;
        while i < n
            invariant
                n == self.entries@.len(),
                i <= n,
                r@.len() == i,
                forall|k: int| 0 <= k < i ==> (#[trigger] r@[k])@ == self.entries@[k].name@,
            decreases n - i,
        {
            r.push(self.entries[i].name.clone());
            i = i + 1;
        }
        proof {
            assert forall|a: int, b: int| 0 <= a < b < r@.len() implies name_lt(r@[a]@, r@[b]@) by {
                assert(name_lt(self.entries@[a].name@, self.entries@[b].name@));
            }
            assert forall|k: Seq<char>|
                self@.contains_key(k) <==> exists|a: int| 0 <= a < r@.len() && r@[a]@ == k by {
                if self@.contains_key(k) {
                    let a = choose|a: int| 0 <= a < self.entries@.len() && self.entries@[a].name@ == k;
                    assert(r@[a]@ == k);
                }
                if exists|a: int| 0 <= a < r@.len() && r@[a]@ == k {
                    let a = choose|a: int| 0 <= a < r@.len() && r@[a]@ == k;
                    assert(self.entries@[a].name@ == k);
                }
            }
        }
        r
    }

    /// Registers each of `regs` in turn.
    pub fn register_all(&mut self, regs: &Vec<Entry>)
        requires
            old(self).wf(),
        ensures
            final(self).wf(),
            final(self)@ == apply_registrations(old(self)@, regs@.map_values(|e: Entry| e@)),
    {
        let ghost start = self@;
        let ghost views = regs@.map_values(|e: Entry| e@);
        let n = regs.len();
        let mut i: usize = 0;
        while i < n
            invariant
                self.wf(),
                n == regs@.len(),
                i <= n,
                views == regs@.map_values(|e: Entry| e@),
                self@ == apply_registrations(start, views.subrange(0, i as int)),
            decreases n - i,
        {
            let e = &regs[i];
            self.insert_or_replace(e.name.clone(), e.flags, e.function);
            assert(views.subrange(0, i + 1).drop_last() =~= views.subrange(0, i as int));
            i = i + 1;
        }
        assert(views.subrange(0, n as int) =~= views);
    }
}

} // verus!

verus! {

/// Every name in a table built by registrations was in the table before, or was
/// registered.
pub proof fn lemma_registered_names(
    table: Map<Seq<char>, Record>,
    regs: Seq<(Seq<char>, Record)>,
    k: Seq<char>,
)
    requires
        apply_registrations(table, regs).contains_key(k),
    ensures
        table.contains_key(k) || exists|i: int| 0 <= i < regs.len() && regs[i].0 == k,
    decreases regs.len(),
{
    if regs.len() > 0 && regs.last().0 != k {
        lemma_registered_names(table, regs.drop_last(), k);
        if !table.contains_key(k) {
            let i = choose|i: int| 0 <= i < regs.drop_last().len() && regs.drop_last()[i].0 == k;
            assert(regs[i].0 == k);
        }
    } else if regs.len() > 0 {
        assert(regs[regs.len() - 1].0 == k);
    }
}

/// Registering one name twice, by one provider or by two, leaves a single record
/// under that name: the later one.
pub proof fn lemma_last_writer_wins(
    table: Map<Seq<char>, Record>,
    name: Seq<char>,
    first: Record,
    second: Record,
)
    ensures
        apply_registrations(table, seq![(name, first), (name, second)]) == table.insert(name, second),
{
    let regs = seq![(name, first), (name, second)];
    let once = regs.drop_last();
    assert(once.drop_last() =~= Seq::<(Seq<char>, Record)>::empty());
    assert(once.last() == (name, first));
    assert(regs.last() == (name, second));
    assert(apply_registrations(table, once.drop_last()) == table);
    assert(apply_registrations(table, once) == table.insert(name, first));
    assert(apply_registrations(table, regs) == table.insert(name, first).insert(name, second));
    assert(table.insert(name, first).insert(name, second) =~= table.insert(name, second));
}

/// Names listed in order hold no duplicates.
pub proof fn lemma_listed_names_distinct(names: Seq<String>)
    requires
        forall|i: int, j: int| 0 <= i < j < names.len() ==> name_lt(names[i]@, names[j]@),
    ensures
        forall|i: int, j: int| 0 <= i < names.len() && 0 <= j < names.len() && i != j ==> names[i]@
            != names[j]@,
{
    assert forall|i: int, j: int|
        0 <= i < names.len() && 0 <= j < names.len() && i != j implies names[i]@ != names[j]@ by {
        lemma_name_lt_irreflexive(names[i]@);
        if i < j {
            assert(name_lt(names[i]@, names[j]@));
        } else {
            assert(name_lt(names[j]@, names[i]@));
        }
    }
}

} // verus!
