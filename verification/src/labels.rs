use vstd::prelude::*;
use crate::bytes::bytes_eq;

verus! {

/// The map that a list of definitions amounts to: a later definition of a name
/// replaces an earlier one.
pub open spec fn definitions_map(entries: Seq<(Seq<u8>, u64)>) -> Map<Seq<u8>, u64>
    decreases entries.len(),
{
    if entries.len() == 0 {
        Map::empty()
    } else {
        definitions_map(entries.drop_last()).insert(entries.last().0, entries.last().1)
    }
}

/// Label names with the byte offsets they stand for.
pub struct LabelTable {
    entries: Vec<(Vec<u8>, u64)>,
}

impl LabelTable {
    /// The definitions in the order they were made.
    pub closed spec fn definitions(&self) -> Seq<(Seq<u8>, u64)> {
        self.entries@.map_values(|e: (Vec<u8>, u64)| (e.0@, e.1))
    }
}

impl View for LabelTable {
    type V = Map<Seq<u8>, u64>;

    closed spec fn view(&self) -> Map<Seq<u8>, u64> {
        definitions_map(self.definitions())
    }
}

proof fn lemma_last_definition(entries: Seq<(Seq<u8>, u64)>, name: Seq<u8>, i: int)
    requires
        0 <= i < entries.len(),
        entries[i].0 == name,
        forall|j: int| i < j < entries.len() ==> entries[j].0 != name,
    ensures
        definitions_map(entries).contains_key(name),
        definitions_map(entries)[name] == entries[i].1,
    decreases entries.len(),
{
    if i < entries.len() - 1 {
        lemma_last_definition(entries.drop_last(), name, i);
    }
}

proof fn lemma_no_definition(entries: Seq<(Seq<u8>, u64)>, name: Seq<u8>)
    requires
        forall|j: int| 0 <= j < entries.len() ==> entries[j].0 != name,
    ensures
        !definitions_map(entries).contains_key(name),
    decreases entries.len(),
{
    if entries.len() > 0 {
        lemma_no_definition(entries.drop_last(), name);
    }
}

impl LabelTable {
    /// A table without labels.
    pub fn new() -> (t: LabelTable)
        ensures
            t@ == Map::<Seq<u8>, u64>::empty(),
    {
        let t = LabelTable { entries: Vec::new() };
        assert(t.definitions() =~= Seq::<(Seq<u8>, u64)>::empty());
        t
    }

    /// Records that `name` stands for `offset`, in place of what it stood for before.
    pub fn insert(&mut self, name: Vec<u8>, offset: u64)
        ensures
            final(self)@ == old(self)@.insert(name@, offset),
    {
        self.entries.push((name, offset));
        assert(self.definitions().drop_last() =~= old(self).definitions());
    }

    /// The offset that `name` stands for.
    pub fn get(&self, name: &[u8]) -> (r: Option<u64>)
        ensures
            r == (if self@.contains_key(name@) {
                Some(self@[name@])
            } else {
                None
            }),
    {
        let mut i: usize = self.entries.len();
        while i > 0
            invariant
                i <= self.entries.len(),
                forall|j: int| i <= j < self.entries.len() ==> self.definitions()[j].0 != name@,
            decreases i,
        {
            i -= 1;
            if bytes_eq(self.entries[i].0.as_slice(), name) {
                proof {
                    lemma_last_definition(self.definitions(), name@, i as int);
                }
                return Some(self.entries[i].1);
            }
        }
        proof {
            lemma_no_definition(self.definitions(), name@);
        }
        None
    }
}

} // verus!
