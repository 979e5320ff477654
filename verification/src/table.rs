//! A table keyed by name, with at most one entry under each name.

use vstd::prelude::*;

verus! {

/// One entry of a table as a mathematical value: the name, and what is kept
/// under it.
pub type Row<V> = (Seq<char>, V);

/// No two rows stand under one name.
pub open spec fn spec_distinct<V>(rows: Seq<Row<V>>) -> bool {
    forall|i: int, j: int|
        0 <= i < j < rows.len() ==> (#[trigger] rows[i]).0 != (#[trigger] rows[j]).0
}

/// Some row stands under `name`.
pub open spec fn spec_listed<V>(rows: Seq<Row<V>>, name: Seq<char>) -> bool {
    exists|i: int| 0 <= i < rows.len() && (#[trigger] rows[i]).0 == name
}

/// The mapping that the rows stand for: each name to what is kept under it.
pub open spec fn spec_mapping<V>(rows: Seq<Row<V>>) -> Map<Seq<char>, V>
    decreases rows.len(),
{
    if rows.len() == 0 {
        Map::empty()
    } else {
        spec_mapping(rows.drop_last()).insert(rows.last().0, rows.last().1)
    }
}

/// The rows of a list of entries.
pub open spec fn spec_rows<V>(entries: Seq<(String, V)>) -> Seq<Row<V>> {
    entries.map_values(|entry: (String, V)| (entry.0@, entry.1))
}

/// The names of the mapping are the names of the rows, and under the name
/// of each row the mapping holds what the row holds.
pub proof fn lemma_mapping_of_rows<V>(rows: Seq<Row<V>>)
    requires
        spec_distinct(rows),
    ensures
        spec_mapping(rows).dom().finite(),
        spec_mapping(rows).len() == rows.len(),
        forall|name: Seq<char>| #[trigger]
            spec_mapping(rows).contains_key(name) <==> spec_listed(rows, name),
        forall|i: int|
            0 <= i < rows.len() ==> spec_mapping(rows)[(#[trigger] rows[i]).0] == rows[i].1,
    decreases rows.len(),
{
    if rows.len() > 0 {
        let front = rows.drop_last();
        let last = rows.last();
        lemma_mapping_of_rows(front);
        assert(!spec_listed(front, last.0)) by {
            if spec_listed(front, last.0) {
                let i = choose|i: int| 0 <= i < front.len() && (#[trigger] front[i]).0 == last.0;
                assert(rows[i].0 == rows[rows.len() - 1].0);
            }
        }
        assert forall|name: Seq<char>| #[trigger]
            spec_mapping(rows).contains_key(name) <==> spec_listed(rows, name) by {
            if spec_listed(rows, name) {
                let i = choose|i: int| 0 <= i < rows.len() && (#[trigger] rows[i]).0 == name;
                if i < front.len() {
                    assert(front[i].0 == name);
                }
            }
            if spec_listed(front, name) {
                let i = choose|i: int| 0 <= i < front.len() && (#[trigger] front[i]).0 == name;
                assert(rows[i].0 == name);
            }
            if name == last.0 {
                assert(rows[rows.len() - 1].0 == name);
            }
        }
        assert forall|i: int| 0 <= i < rows.len() implies spec_mapping(rows)[(#[trigger] rows[
            i
        ]).0] == rows[i].1 by {
            if i < front.len() {
                assert(front[i] == rows[i]);
                assert(rows[i].0 != rows[rows.len() - 1].0);
            }
        }
    }
}

/// Putting a row in the place of the one that has its name is an insertion
/// into the mapping.
proof fn lemma_mapping_update<V>(rows: Seq<Row<V>>, at: int, value: V)
    requires
        spec_distinct(rows),
        0 <= at < rows.len(),
    ensures
        spec_distinct(rows.update(at, (rows[at].0, value))),
        spec_mapping(rows.update(at, (rows[at].0, value))) == spec_mapping(rows).insert(
            rows[at].0,
            value,
        ),
{
    let name = rows[at].0;
    let after = rows.update(at, (name, value));
    assert(spec_distinct(after)) by {
        assert forall|i: int, j: int| 0 <= i < j < after.len() implies (#[trigger] after[i]).0 != (
        #[trigger] after[j]).0 by {
            assert(after[i].0 == rows[i].0);
            assert(after[j].0 == rows[j].0);
        }
    }
    lemma_mapping_of_rows(rows);
    lemma_mapping_of_rows(after);
    let wanted = spec_mapping(rows).insert(name, value);
    assert forall|key: Seq<char>| spec_mapping(after).contains_key(key) <==> wanted.contains_key(
        key,
    ) by {
        if spec_listed(after, key) {
            let i = choose|i: int| 0 <= i < after.len() && (#[trigger] after[i]).0 == key;
            assert(rows[i].0 == key);
        }
        if spec_listed(rows, key) {
            let i = choose|i: int| 0 <= i < rows.len() && (#[trigger] rows[i]).0 == key;
            assert(after[i].0 == key);
        }
        if key == name {
            assert(after[at].0 == key);
        }
    }
    assert forall|key: Seq<char>| spec_mapping(after).contains_key(key) implies spec_mapping(
        after,
    )[key] == wanted[key] by {
        let i = choose|i: int| 0 <= i < after.len() && (#[trigger] after[i]).0 == key;
        assert(spec_mapping(after)[after[i].0] == after[i].1);
        if i != at {
            assert(rows[i].0 == key);
            assert(spec_mapping(rows)[rows[i].0] == rows[i].1);
            if i < at {
                assert(rows[i].0 != rows[at].0);
            } else {
                assert(rows[at].0 != rows[i].0);
            }
        }
    }
    assert(spec_mapping(after) =~= wanted);
}

/// Adding a row under a name that no row has is an insertion into the
/// mapping.
proof fn lemma_mapping_push<V>(rows: Seq<Row<V>>, name: Seq<char>, value: V)
    requires
        spec_distinct(rows),
        !spec_listed(rows, name),
    ensures
        spec_distinct(rows.push((name, value))),
        spec_mapping(rows.push((name, value))) == spec_mapping(rows).insert(name, value),
{
    let after = rows.push((name, value));
    assert(after.drop_last() =~= rows);
    assert forall|i: int, j: int| 0 <= i < j < after.len() implies (#[trigger] after[i]).0 != (
    #[trigger] after[j]).0 by {
        assert(after[i] == rows[i]);
        if j < rows.len() {
            assert(after[j] == rows[j]);
        }
    }
}

/// Taking a row out takes its name out of the mapping.
proof fn lemma_mapping_remove<V>(rows: Seq<Row<V>>, at: int)
    requires
        spec_distinct(rows),
        0 <= at < rows.len(),
    ensures
        spec_distinct(rows.remove(at)),
        spec_mapping(rows.remove(at)) == spec_mapping(rows).remove(rows[at].0),
{
    let name = rows[at].0;
    let after = rows.remove(at);
    assert(spec_distinct(after)) by {
        assert forall|i: int, j: int| 0 <= i < j < after.len() implies (#[trigger] after[i]).0 != (
        #[trigger] after[j]).0 by {
            let from_i = if i < at { i } else { i + 1 };
            let from_j = if j < at { j } else { j + 1 };
            assert(after[i] == rows[from_i]);
            assert(after[j] == rows[from_j]);
        }
    }
    lemma_mapping_of_rows(rows);
    lemma_mapping_of_rows(after);
    let wanted = spec_mapping(rows).remove(name);
    assert forall|key: Seq<char>| spec_mapping(after).contains_key(key) <==> wanted.contains_key(
        key,
    ) by {
        if spec_listed(after, key) {
            let i = choose|i: int| 0 <= i < after.len() && (#[trigger] after[i]).0 == key;
            let from = if i < at { i } else { i + 1 };
            assert(after[i] == rows[from]);
            assert(rows[from].0 == key);
            if from < at {
                assert(rows[from].0 != rows[at].0);
            } else {
                assert(rows[at].0 != rows[from].0);
            }
        }
        if spec_listed(rows, key) && key != name {
            let i = choose|i: int| 0 <= i < rows.len() && (#[trigger] rows[i]).0 == key;
            let to = if i < at { i } else { i - 1 };
            assert(after[to] == rows[i]);
            assert(after[to].0 == key);
        }
    }
    assert forall|key: Seq<char>| spec_mapping(after).contains_key(key) implies spec_mapping(
        after,
    )[key] == wanted[key] by {
        let i = choose|i: int| 0 <= i < after.len() && (#[trigger] after[i]).0 == key;
        let from = if i < at { i } else { i + 1 };
        assert(after[i] == rows[from]);
        assert(spec_mapping(after)[after[i].0] == after[i].1);
        assert(spec_mapping(rows)[rows[from].0] == rows[from].1);
    }
    assert(spec_mapping(after) =~= wanted);
}

/// A table keyed by name. It lists its entries in a fixed order, which
/// carries no meaning: what a table holds is the mapping from names to
/// values.
#[derive(Debug)]
pub struct NameTable<V> {
    entries: Vec<(String, V)>,
}

impl<V> View for NameTable<V> {
    type V = Map<Seq<char>, V>;

    /// The mapping from each name in the table to what is kept under it.
    open spec fn view(&self) -> Map<Seq<char>, V> {
        spec_mapping(self.rows())
    }
}

impl<V> NameTable<V> {
    #[verifier::type_invariant]
    spec fn well_formed(self) -> bool {
        spec_distinct(spec_rows(self.entries@))
    }

    /// The rows in the order in which the table lists them.
    pub closed spec fn rows(&self) -> Seq<Row<V>> {
        spec_rows(self.entries@)
    }

    /// An empty table.
    pub fn new() -> (table: Self)
        ensures
            table.rows() == Seq::<Row<V>>::empty(),
            table@ == Map::<Seq<char>, V>::empty(),
    {
        let table = NameTable { entries: Vec::new() };
        assert(table.rows() =~= Seq::empty());
        table
    }

    /// The number of entries.
    pub fn len(&self) -> (count: usize)
        ensures
            count == self.rows().len(),
            count == self@.len(),
            spec_distinct(self.rows()),
    {
        proof {
            use_type_invariant(self);
            lemma_mapping_of_rows(self.rows());
        }
        self.entries.len()
    }

    /// The position of the entry under `name`, or the number of entries
    /// where there is none.
    fn position(&self, name: &String) -> (at: usize)
        ensures
            at <= self.rows().len(),
            at < self.rows().len() ==> self.rows()[at as int].0 == name@,
            at == self.rows().len() ==> !spec_listed(self.rows(), name@),
    {
        let mut at: usize = 0;
        while at < self.entries.len()
            invariant
                at <= self.entries.len(),
                forall|i: int| 0 <= i < at ==> (#[trigger] self.rows()[i]).0 != name@,
            decreases self.entries.len() - at,
        {
            if self.entries[at].0 == *name {
                return at;
            }
            at += 1;
        }
        at
    }

    /// Whether an entry stands under `name`.
    pub fn contains(&self, name: &String) -> (found: bool)
        ensures
            found == self@.contains_key(name@),
    {
        proof {
            use_type_invariant(self);
            lemma_mapping_of_rows(self.rows());
        }
        self.position(name) < self.entries.len()
    }

    /// What is kept under `name`, if anything.
    pub fn get(&self, name: &String) -> (found: Option<&V>)
        ensures
            match found {
                Some(value) => self@.contains_key(name@) && *value == self@[name@],
                None => !self@.contains_key(name@),
            },
    {
        proof {
            use_type_invariant(self);
            lemma_mapping_of_rows(self.rows());
        }
        let at = self.position(name);
        if at < self.entries.len() {
            assert(self.rows()[at as int].1 == self.entries@[at as int].1);
            Some(&self.entries[at].1)
        } else {
            None
        }
    }

    /// The name of the entry that the table lists at `index`.
    pub fn name_at(&self, index: usize) -> (name: &String)
        requires
            index < self.rows().len(),
        ensures
            name@ == self.rows()[index as int].0,
    {
        &self.entries[index].0
    }

    /// What the entry that the table lists at `index` holds.
    pub fn value_at(&self, index: usize) -> (value: &V)
        requires
            index < self.rows().len(),
        ensures
            *value == self.rows()[index as int].1,
    {
        &self.entries[index].1
    }

    /// The names in the table, each once, in the order of the listing.
    pub fn names(&self) -> (names: Vec<String>)
        ensures
            names@.len() == self.rows().len(),
            forall|i: int| 0 <= i < names@.len() ==> (#[trigger] names@[i])@ == self.rows()[i].0,
            spec_distinct(self.rows()),
    {
        proof {
            use_type_invariant(self);
        }
        let mut names: Vec<String> = Vec::new();
        let mut i: usize = 0;
        while i < self.entries.len()
            invariant
                i <= self.entries.len(),
                names@.len() == i,
                forall|k: int| 0 <= k < i ==> (#[trigger] names@[k])@ == self.rows()[k].0,
            decreases self.entries.len() - i,
        {
            names.push(self.entries[i].0.clone());
            i += 1;
        }
        names
    }

    /// Keeps `value` under `name`, in the place of what was kept there, and
    /// hands back what was kept there.
    ///
    /// A name that is new to the table goes to the end of the listing; one
    /// that is not keeps its place.
    pub fn insert(&mut self, name: String, value: V) -> (previous: Option<V>)
        ensures
            final(self)@ == old(self)@.insert(name@, value),
            previous == if old(self)@.contains_key(name@) {
                Some(old(self)@[name@])
            } else {
                None
            },
            spec_listed(old(self).rows(), name@) ==> exists|at: int|
                0 <= at < old(self).rows().len() && old(self).rows()[at].0 == name@
                    && final(self).rows() == old(self).rows().update(at, (name@, value)),
            !spec_listed(old(self).rows(), name@) ==> final(self).rows() == old(self).rows().push(
                (name@, value),
            ),
    {
        proof {
            use_type_invariant(&*self);
            lemma_mapping_of_rows(self.rows());
        }
        let at = self.position(&name);
        let ghost before = self.rows();
        let mut entries: Vec<(String, V)> = Vec::new();
        std::mem::swap(&mut self.entries, &mut entries);
        let previous = if at < entries.len() {
            let replaced = entries.remove(at);
            entries.insert(at, (name, value));
            proof {
                assert(spec_rows(entries@) =~= before.update(at as int, (name@, value)));
                lemma_mapping_update(before, at as int, value);
            }
            Some(replaced.1)
        } else {
            entries.push((name, value));
            proof {
                assert(spec_rows(entries@) =~= before.push((name@, value)));
                lemma_mapping_push(before, name@, value);
            }
            None
        };
        self.entries = entries;
        previous
    }

    /// Takes out what is kept under `name`, if anything, and hands it back.
    /// The other entries keep their order.
    pub fn remove(&mut self, name: &String) -> (removed: Option<V>)
        ensures
            final(self)@ == old(self)@.remove(name@),
            removed == if old(self)@.contains_key(name@) {
                Some(old(self)@[name@])
            } else {
                None
            },
            !old(self)@.contains_key(name@) ==> *final(self) == *old(self),
            old(self)@.contains_key(name@) ==> exists|at: int|
                0 <= at < old(self).rows().len() && old(self).rows()[at].0 == name@
                    && final(self).rows() == old(self).rows().remove(at),
    {
        proof {
            use_type_invariant(&*self);
            lemma_mapping_of_rows(self.rows());
        }
        let at = self.position(name);
        let ghost before = self.rows();
        if at < self.entries.len() {
            let mut entries: Vec<(String, V)> = Vec::new();
            std::mem::swap(&mut self.entries, &mut entries);
            let taken = entries.remove(at);
            proof {
                assert(spec_rows(entries@) =~= before.remove(at as int));
                lemma_mapping_remove(before, at as int);
            }
            self.entries = entries;
            Some(taken.1)
        } else {
            assert(old(self)@.remove(name@) =~= old(self)@);
            None
        }
    }
}

} // verus!
