//! Records kept by id: at most one record per id, a record stored under an
//! id that is already present replaces the earlier one in place. The tool
//! registry and the in-memory vector store keep their entries this way.

use crate::text::same_text;
use vstd::prelude::*;

verus! {

/// The ids of a list of entries, in order.
pub open spec fn ids_of<T>(s: Seq<(String, T)>) -> Seq<Seq<char>> {
    s.map_values(|e: (String, T)| e.0@)
}

/// The entries by id.
pub open spec fn entries_map<T>(s: Seq<(String, T)>) -> Map<Seq<char>, T> {
    Map::new(
        |n: Seq<char>| exists|i: int| 0 <= i < s.len() && s[i].0@ == n,
        |n: Seq<char>| s[choose|i: int| 0 <= i < s.len() && s[i].0@ == n].1,
    )
}

/// With distinct ids, the ids present are exactly as many as the entries.
proof fn lemma_distinct_ids_count<T>(s: Seq<(String, T)>)
    requires
        ids_of(s).no_duplicates(),
    ensures
        entries_map(s).dom().len() == s.len(),
        entries_map(s).dom().finite(),
{
    assert(entries_map(s).dom() =~= ids_of(s).to_set()) by {
        assert forall|n: Seq<char>| #[trigger] entries_map(s).dom().contains(n) <==> ids_of(
            s,
        ).to_set().contains(n) by {
            if ids_of(s).contains(n) {
                let j = choose|j: int| 0 <= j < ids_of(s).len() && ids_of(s)[j] == n;
                assert(s[j].0@ == n);
            }
            if entries_map(s).dom().contains(n) {
                let j = choose|j: int| 0 <= j < s.len() && s[j].0@ == n;
                assert(ids_of(s)[j] == n);
            }
        }
    }
    ids_of(s).unique_seq_to_set();
    vstd::seq_lib::seq_to_set_is_finite(ids_of(s));
}

/// An operation on a record table, by the id it names.
pub enum RecordOp {
    Upsert(Seq<char>),
    Remove(Seq<char>),
}

/// The id an operation names.
pub open spec fn op_id(op: RecordOp) -> Seq<char> {
    match op {
        RecordOp::Upsert(id) => id,
        RecordOp::Remove(id) => id,
    }
}

/// The ids present after a sequence of operations on an empty table.
pub open spec fn ids_after(ops: Seq<RecordOp>) -> Set<Seq<char>>
    decreases ops.len(),
{
    if ops.len() == 0 {
        Set::empty()
    } else {
        match ops.last() {
            RecordOp::Upsert(id) => ids_after(ops.drop_last()).insert(id),
            RecordOp::Remove(id) => ids_after(ops.drop_last()).remove(id),
        }
    }
}

/// Whether the last operation naming `id` is an upsert.
pub open spec fn last_is_upsert(ops: Seq<RecordOp>, id: Seq<char>) -> bool {
    exists|i: int|
        0 <= i < ops.len() && ops[i] == RecordOp::Upsert(id) && forall|j: int|
            i < j < ops.len() ==> op_id(#[trigger] ops[j]) != id
}

/// The ids present after a sequence of operations are those whose last
/// operation is an upsert, and there are finitely many.
pub proof fn lemma_ids_after(ops: Seq<RecordOp>)
    ensures
        ids_after(ops).finite(),
        forall|id: Seq<char>| #[trigger] ids_after(ops).contains(id) <==> last_is_upsert(ops, id),
    decreases ops.len(),
{
    if ops.len() > 0 {
        let p = ops.drop_last();
        lemma_ids_after(p);
        let n = ops.len() - 1;
        assert forall|id: Seq<char>| #[trigger] ids_after(ops).contains(id) <==> last_is_upsert(
            ops,
            id,
        ) by {
            if id == op_id(ops.last()) {
                if ops.last() is Upsert {
                    assert(ops[n] == RecordOp::Upsert(id));
                } else {
                    if last_is_upsert(ops, id) {
                        let i = choose|i: int|
                            0 <= i < ops.len() && ops[i] == RecordOp::Upsert(id) && forall|j: int|
                                i < j < ops.len() ==> op_id(#[trigger] ops[j]) != id;
                        assert(i != n);
                        assert(op_id(ops[n]) == id);
                    }
                }
            } else {
                if last_is_upsert(p, id) {
                    let i = choose|i: int|
                        0 <= i < p.len() && p[i] == RecordOp::Upsert(id) && forall|j: int|
                            i < j < p.len() ==> op_id(#[trigger] p[j]) != id;
                    assert(ops[i] == RecordOp::Upsert(id));
                    assert forall|j: int| i < j < ops.len() implies op_id(#[trigger] ops[j]) != id by {
                        if j < n {
                            assert(ops[j] == p[j]);
                        }
                    }
                }
                if last_is_upsert(ops, id) {
                    let i = choose|i: int|
                        0 <= i < ops.len() && ops[i] == RecordOp::Upsert(id) && forall|j: int|
                            i < j < ops.len() ==> op_id(#[trigger] ops[j]) != id;
                    assert(i != n);
                    assert(p[i] == RecordOp::Upsert(id));
                    assert forall|j: int| i < j < p.len() implies op_id(#[trigger] p[j]) != id by {
                        assert(ops[j] == p[j]);
                    }
                }
            }
        }
    }
}

/// Records by id, in the order their ids first came.
pub struct RecordTable<T> {
    entries: Vec<(String, T)>,
    /// The operations applied so far.
    ops: Ghost<Seq<RecordOp>>,
}

impl<T> RecordTable<T> {
    /// The entries, in order; their ids are distinct.
    pub closed spec fn spec_entries(&self) -> Seq<(String, T)> {
        self.entries@
    }

    /// The operations applied since the table was created.
    pub closed spec fn spec_ops(&self) -> Seq<RecordOp> {
        self.ops@
    }

    /// The ids are distinct, and they are the ids present after the
    /// operations applied.
    pub closed spec fn wf(&self) -> bool {
        &&& ids_of(self.entries@).no_duplicates()
        &&& entries_map(self.entries@).dom() == ids_after(self.ops@)
    }

    /// An empty table.
    pub fn new() -> (t: Self)
        ensures
            t.wf(),
            t.spec_entries().len() == 0,
            t.spec_ops().len() == 0,
    {
        let t = RecordTable { entries: Vec::new(), ops: Ghost(Seq::empty()) };
        assert(ids_of(t.entries@) =~= Seq::<Seq<char>>::empty());
        assert(entries_map(t.entries@).dom() =~= ids_after(t.ops@));
        t
    }

    /// Stores `value` under `id`; a record stored earlier under the same id
    /// is replaced in place.
    pub fn upsert(&mut self, id: String, value: T)
        requires
            old(self).wf(),
        ensures
            final(self).wf(),
            entries_map(final(self).spec_entries()) == entries_map(old(self).spec_entries()).insert(
                id@,
                value,
            ),
            final(self).spec_ops() == old(self).spec_ops().push(RecordOp::Upsert(id@)),
    {
        let ghost old_e = self.entries@;
        let ghost ops1 = old(self).ops@.push(RecordOp::Upsert(id@));
        proof {
            assert(ops1.drop_last() =~= old(self).ops@);
            assert(ids_after(ops1) == ids_after(old(self).ops@).insert(id@));
        }
        self.ops = Ghost(ops1);
        let mut i: usize = 0;
        while i < self.entries.len()
            invariant
                i <= self.entries@.len(),
                self.entries@ == old_e,
                self.ops@ == ops1,
                ops1 == old(self).ops@.push(RecordOp::Upsert(id@)),
                ids_after(ops1) == entries_map(old_e).dom().insert(id@),
                old_e == old(self).entries@,
                ids_of(old_e).no_duplicates(),
                forall|k: int| 0 <= k < i ==> self.entries@[k].0@ != id@,
            decreases self.entries.len() - i,
        {
            if same_text(self.entries[i].0.as_str(), id.as_str()) {
                let ghost key = id@;
                self.entries.set(i, (id, value));
                proof {
                    assert(ids_of(self.entries@) =~= ids_of(old_e));
                    assert(entries_map(self.entries@) =~= entries_map(old_e).insert(key, value)) by {
                        assert forall|n: Seq<char>| #[trigger] entries_map(self.entries@).contains_key(n)
                            <==> entries_map(old_e).insert(key, value).contains_key(n) by {
                            if n == key {
                                assert(self.entries@[i as int].0@ == n);
                            } else {
                                if exists|j: int| 0 <= j < old_e.len() && old_e[j].0@ == n {
                                    let j = choose|j: int| 0 <= j < old_e.len() && old_e[j].0@ == n;
                                    assert(self.entries@[j].0@ == n);
                                }
                            }
                        }
                        assert forall|n: Seq<char>| #[trigger] entries_map(self.entries@).contains_key(n)
                            implies entries_map(self.entries@)[n] == entries_map(old_e).insert(
                            key,
                            value,
                        )[n] by {
                            let j = choose|j: int| 0 <= j < self.entries@.len() && self.entries@[j].0@ == n;
                            if n == key {
                                assert(ids_of(self.entries@)[j] == ids_of(self.entries@)[i as int]);
                            } else {
                                let j2 = choose|j: int| 0 <= j < old_e.len() && old_e[j].0@ == n;
                                assert(ids_of(old_e)[j] == ids_of(old_e)[j2]);
                            }
                        }
                    }
                    assert(entries_map(self.entries@).dom() =~= ids_after(self.ops@));
                }
                return;
            }
            i = i + 1;
        }
        let ghost key = id@;
        self.entries.push((id, value));
        proof {
            assert(ids_of(self.entries@) =~= ids_of(old_e).push(key));
            assert(entries_map(self.entries@) =~= entries_map(old_e).insert(key, value)) by {
                assert forall|n: Seq<char>| #[trigger] entries_map(self.entries@).contains_key(n)
                    <==> entries_map(old_e).insert(key, value).contains_key(n) by {
                    if n != key && exists|j: int| 0 <= j < old_e.len() && old_e[j].0@ == n {
                        let j = choose|j: int| 0 <= j < old_e.len() && old_e[j].0@ == n;
                        assert(self.entries@[j].0@ == n);
                    }
                    if n == key {
                        assert(self.entries@[old_e.len() as int].0@ == n);
                    }
                }
                assert forall|n: Seq<char>| #[trigger] entries_map(self.entries@).contains_key(n)
                    implies entries_map(self.entries@)[n] == entries_map(old_e).insert(key, value)[n] by {
                    let j = choose|j: int| 0 <= j < self.entries@.len() && self.entries@[j].0@ == n;
                    if n == key {
                        assert(ids_of(self.entries@)[j] == ids_of(self.entries@)[old_e.len() as int]);
                    } else {
                        let j2 = choose|j: int| 0 <= j < old_e.len() && old_e[j].0@ == n;
                        assert(ids_of(self.entries@)[j] == ids_of(self.entries@)[j2]);
                    }
                }
            }
            assert(entries_map(self.entries@).dom() =~= ids_after(self.ops@));
        }
    }

    /// Position of the entry with the given id.
    fn position(&self, id: &str) -> (r: Option<usize>)
        requires
            self.wf(),
        ensures
            r is Some <==> entries_map(self.spec_entries()).contains_key(id@),
            r matches Some(i) ==> i < self.entries@.len() && self.entries@[i as int].0@ == id@,
    {
        let mut i: usize = 0;
        while i < self.entries.len()
            invariant
                i <= self.entries@.len(),
                forall|k: int| 0 <= k < i ==> self.entries@[k].0@ != id@,
            decreases self.entries.len() - i,
        {
            if same_text(self.entries[i].0.as_str(), id) {
                return Some(i);
            }
            i = i + 1;
        }
        None
    }

    /// The record stored under `id`.
    pub fn get(&self, id: &str) -> (r: Option<&T>)
        requires
            self.wf(),
        ensures
            r is Some <==> entries_map(self.spec_entries()).contains_key(id@),
            r matches Some(t) ==> *t == entries_map(self.spec_entries())[id@],
    {
        match self.position(id) {
            Some(i) => {
                proof {
                    let j = choose|j: int| 0 <= j < self.entries@.len() && self.entries@[j].0@ == id@;
                    assert(ids_of(self.entries@)[j] == ids_of(self.entries@)[i as int]);
                }
                Some(&self.entries[i].1)
            },
            None => None,
        }
    }

    /// Removes the record stored under `id`, if any; the others keep their
    /// order.
    pub fn remove(&mut self, id: &str)
        requires
            old(self).wf(),
        ensures
            final(self).wf(),
            entries_map(final(self).spec_entries()) == entries_map(old(self).spec_entries()).remove(
                id@,
            ),
            final(self).spec_ops() == old(self).spec_ops().push(RecordOp::Remove(id@)),
    {
        let ghost old_e = self.entries@;
        let ghost ops1 = old(self).ops@.push(RecordOp::Remove(id@));
        proof {
            assert(ops1.drop_last() =~= old(self).ops@);
            assert(ids_after(ops1) == ids_after(old(self).ops@).remove(id@));
        }
        let pos = self.position(id);
        self.ops = Ghost(ops1);
        match pos {
            Some(i) => {
                let _ = self.entries.remove(i);
                proof {
                    let e = self.entries@;
                    assert(e =~= old_e.remove(i as int));
                    assert forall|a: int, b: int|
                        0 <= a < b < ids_of(e).len() implies ids_of(e)[a] != ids_of(e)[b] by {
                        let a2 = if a < i { a } else { a + 1 };
                        let b2 = if b < i { b } else { b + 1 };
                        assert(ids_of(e)[a] == ids_of(old_e)[a2]);
                        assert(ids_of(e)[b] == ids_of(old_e)[b2]);
                    }
                    assert(entries_map(e) =~= entries_map(old_e).remove(id@)) by {
                        assert forall|n: Seq<char>| #[trigger] entries_map(e).contains_key(n)
                            <==> entries_map(old_e).remove(id@).contains_key(n) by {
                            if entries_map(e).contains_key(n) {
                                let j = choose|j: int| 0 <= j < e.len() && e[j].0@ == n;
                                let j2 = if j < i { j } else { j + 1 };
                                assert(old_e[j2].0@ == n);
                                assert(ids_of(old_e)[j2] != ids_of(old_e)[i as int] || j2 == i);
                            }
                            if entries_map(old_e).remove(id@).contains_key(n) {
                                let j = choose|j: int| 0 <= j < old_e.len() && old_e[j].0@ == n;
                                assert(j != i);
                                let j2 = if j < i { j } else { j - 1 };
                                assert(e[j2].0@ == n);
                            }
                        }
                        assert forall|n: Seq<char>| #[trigger] entries_map(e).contains_key(n)
                            implies entries_map(e)[n] == entries_map(old_e).remove(id@)[n] by {
                            let j = choose|j: int| 0 <= j < e.len() && e[j].0@ == n;
                            let j2 = if j < i { j } else { j + 1 };
                            assert(old_e[j2].0@ == n);
                            let j3 = choose|j: int| 0 <= j < old_e.len() && old_e[j].0@ == n;
                            assert(ids_of(old_e)[j2] == ids_of(old_e)[j3]);
                        }
                    }
                }
            },
            None => {
                assert(entries_map(old_e).remove(id@) =~= entries_map(old_e));
            },
        }
        assert(entries_map(self.entries@).dom() =~= ids_after(self.ops@));
    }

    /// Number of records, one per id present: the ids whose last operation
    /// was an upsert.
    pub fn len(&self) -> (r: usize)
        requires
            self.wf(),
        ensures
            r == entries_map(self.spec_entries()).dom().len(),
            r == self.spec_entries().len(),
            r == ids_after(self.spec_ops()).len(),
    {
        proof {
            lemma_distinct_ids_count(self.entries@);
        }
        self.entries.len()
    }

    /// The entries with their ids, in order.
    pub fn entries(&self) -> (r: &Vec<(String, T)>)
        ensures
            r@ == self.spec_entries(),
    {
        &self.entries
    }
}

/// Whatever upserts and removals were applied to a table since it was
/// created, its records are one per id whose last operation was an upsert:
/// an id is present exactly then, and the count is the number of such ids.
pub proof fn lemma_count_after_operations<T>(t: RecordTable<T>)
    requires
        t.wf(),
    ensures
        forall|id: Seq<char>| #[trigger] entries_map(t.spec_entries()).contains_key(id)
            <==> last_is_upsert(t.spec_ops(), id),
        t.spec_entries().len() == ids_after(t.spec_ops()).len(),
{
    lemma_ids_after(t.spec_ops());
    lemma_distinct_ids_count(t.spec_entries());
    assert(entries_map(t.spec_entries()).dom() == ids_after(t.spec_ops()));
}

/// Removing a record leaves no record under its id, and every other id
/// keeps its record.
pub proof fn lemma_remove_then_get<T>(before: Seq<(String, T)>, after: Seq<(String, T)>, id: Seq<char>)
    requires
        entries_map(after) == entries_map(before).remove(id),
    ensures
        !entries_map(after).contains_key(id),
        forall|other: Seq<char>|
            other != id ==> (#[trigger] entries_map(after).contains_key(other) <==> entries_map(
                before,
            ).contains_key(other)) && (entries_map(before).contains_key(other) ==> entries_map(
                after,
            )[other] == entries_map(before)[other]),
{
}

} // verus!
