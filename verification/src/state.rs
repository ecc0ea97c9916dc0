//! The store: the one authoritative collection of todo records.
//!
//! Every operation takes the store as a whole, so each is atomic with
//! respect to the others: what shares a store between requests hands it
//! out to one operation at a time.

use std::collections::HashMap;
use vstd::prelude::*;
use vstd::std_specs::hash::*;
use vstd::std_specs::iter::IteratorSpec;
use vstd::string::*;
use crate::error::{AppError, AppErrorView};
use crate::models::todo::{Todo, TodoView};

verus! {

broadcast use group_hash_axioms;

/// What holds of the records of every store: each is kept under its own
/// identifier, and each is valid.
pub open spec fn consistent(records: Map<u128, TodoView>) -> bool {
    forall|id: u128| #[trigger]
        records.contains_key(id) ==> records[id].id == id && records[id].is_valid()
}

/// The order of a listing: the record created later comes first, and of
/// two records created at the same time the one with the smaller identifier.
pub open spec fn comes_before(a: TodoView, b: TodoView) -> bool {
    a.created_at > b.created_at || (a.created_at == b.created_at && a.id < b.id)
}

/// `listing` is in the order of [`comes_before`].
pub open spec fn in_order(listing: Seq<TodoView>) -> bool {
    forall|i: int, j: int|
        0 <= i < j < listing.len() ==> comes_before(#[trigger] listing[i], #[trigger] listing[j])
}

/// `listing` holds every record of `records` once, in the order of
/// [`comes_before`].
pub open spec fn is_listing(records: Map<u128, TodoView>, listing: Seq<TodoView>) -> bool {
    &&& forall|i: int|
        0 <= i < listing.len() ==> records.contains_key((#[trigger] listing[i]).id)
            && records[listing[i].id] == listing[i]
    &&& forall|id: u128| #[trigger]
        records.contains_key(id) ==> exists|i: int|
            0 <= i < listing.len() && (#[trigger] listing[i]).id == id
    &&& in_order(listing)
}

/// What no change of a record touches: its identifier, the path by which
/// it came, and the time of its creation.
pub open spec fn same_identity(before: TodoView, after: TodoView) -> bool {
    &&& after.id == before.id
    &&& after.source == before.source
    &&& after.created_at == before.created_at
}

/// The views of a list of records.
pub open spec fn todo_views(v: Seq<Todo>) -> Seq<TodoView> {
    Seq::new(v.len(), |i: int| v[i]@)
}

/// The text of the fault that `create` reports for an identifier that is
/// already in use.
pub open spec fn create_fault() -> Seq<char> {
    "failed to create todo"@
}

/// `listing` holds, in order, the records of `records` that go by the
/// identifiers `ids`, and no others.
spec fn lists(records: Map<u128, TodoView>, ids: Seq<u128>, listing: Seq<TodoView>) -> bool {
    &&& forall|i: int|
        0 <= i < listing.len() ==> records.contains_key((#[trigger] listing[i]).id)
            && records[listing[i].id] == listing[i] && ids.contains(listing[i].id)
    &&& forall|j: int|
        0 <= j < ids.len() ==> exists|i: int|
            0 <= i < listing.len() && (#[trigger] listing[i]).id == #[trigger] ids[j]
    &&& in_order(listing)
}

proof fn lemma_lists_insert(
    records: Map<u128, TodoView>,
    ids: Seq<u128>,
    listing: Seq<TodoView>,
    record: TodoView,
    p: int,
)
    requires
        lists(records, ids, listing),
        0 <= p <= listing.len(),
        records.contains_key(record.id),
        records[record.id] == record,
        in_order(listing.insert(p, record)),
    ensures
        lists(records, ids.push(record.id), listing.insert(p, record)),
{
    let after = listing.insert(p, record);
    let more = ids.push(record.id);
    assert forall|i: int| 0 <= i < after.len() implies records.contains_key(
        (#[trigger] after[i]).id,
    ) && records[after[i].id] == after[i] && more.contains(after[i].id) by {
        if i < p {
            assert(after[i] == listing[i]);
            let j = choose|j: int| 0 <= j < ids.len() && ids[j] == listing[i].id;
            assert(more[j] == after[i].id);
        } else if i > p {
            assert(after[i] == listing[i - 1]);
            let j = choose|j: int| 0 <= j < ids.len() && ids[j] == listing[i - 1].id;
            assert(more[j] == after[i].id);
        } else {
            assert(more[ids.len() as int] == after[i].id);
        }
    }
    assert forall|j: int| 0 <= j < more.len() implies exists|i: int|
        0 <= i < after.len() && (#[trigger] after[i]).id == #[trigger] more[j] by {
        if j < ids.len() {
            assert(more[j] == ids[j]);
            let i = choose|i: int| 0 <= i < listing.len() && (#[trigger] listing[i]).id == ids[j];
            if i < p {
                assert(after[i] == listing[i]);
            } else {
                assert(after[i + 1] == listing[i]);
            }
        } else {
            assert(after[p].id == more[j]);
        }
    }
}

/// Puts `record` into a list that is in order, at its place.
fn insert_in_order(out: &mut Vec<Todo>, record: Todo)
    requires
        in_order(todo_views(old(out)@)),
        forall|i: int| 0 <= i < old(out)@.len() ==> (#[trigger] old(out)@[i]).id != record.id,
    ensures
        in_order(todo_views(final(out)@)),
        exists|p: int|
            0 <= p <= old(out)@.len() && todo_views(final(out)@) == todo_views(old(out)@).insert(
                p,
                record@,
            ),
{
    let ghost before = todo_views(out@);
    let ghost r = record@;
    let m: usize = out.len();
    let mut p: usize = 0;
    while p < m && precedes(&out[p], &record)
        invariant
            p <= m,
            m == out@.len(),
            forall|i: int| 0 <= i < p ==> comes_before((#[trigger] out@[i])@, record@),
        decreases m - p,
    {
        p += 1;
    }
    out.insert(p, record);
    proof {
        let after = todo_views(out@);
        assert(after =~= before.insert(p as int, r));
        assert forall|i: int, j: int| 0 <= i < j < after.len() implies comes_before(
            #[trigger] after[i],
            #[trigger] after[j],
        ) by {
            if p < before.len() {
                assert(!comes_before(before[p as int], r));
                assert(old(out)@[p as int].id != r.id);
            }
            if i < p {
                assert(after[i] == before[i]);
                assert(comes_before(old(out)@[i]@, r));
            } else if i > p {
                assert(after[i] == before[i - 1]);
            }
            if j < p {
                assert(after[j] == before[j]);
            } else if j > p {
                assert(after[j] == before[j - 1]);
                if p < j - 1 {
                    assert(comes_before(before[p as int], before[j - 1]));
                }
            }
        }
    }
}

/// In a listing, a record that was created later than another stands
/// before it.
pub proof fn lemma_listing_newest_first(
    records: Map<u128, TodoView>,
    listing: Seq<TodoView>,
    i: int,
    j: int,
)
    requires
        is_listing(records, listing),
        0 <= i < listing.len(),
        0 <= j < listing.len(),
        listing[i].created_at > listing[j].created_at,
    ensures
        i < j,
{
    if j < i {
        assert(comes_before(listing[j], listing[i]));
    }
}

/// A store has one listing only: the order leaves no choice.
pub proof fn lemma_listing_unique(
    records: Map<u128, TodoView>,
    first: Seq<TodoView>,
    second: Seq<TodoView>,
)
    requires
        is_listing(records, first),
        is_listing(records, second),
    ensures
        first == second,
    decreases first.len(),
{
    if first.len() == 0 {
        if second.len() > 0 {
            assert(records.contains_key(second[0].id));
        }
        assert(first =~= second);
    } else {
        let a = first[0];
        assert(records.contains_key(a.id));
        let ib = choose|i: int| 0 <= i < second.len() && (#[trigger] second[i]).id == a.id;
        assert(second[ib] == a);
        let b = second[0];
        assert(records.contains_key(b.id));
        let ia = choose|i: int| 0 <= i < first.len() && (#[trigger] first[i]).id == b.id;
        assert(first[ia] == b);
        if ib > 0 {
            assert(comes_before(second[0], second[ib]));
            if ia > 0 {
                assert(comes_before(first[0], first[ia]));
            }
        }
        assert(a == b);
        let rest = records.remove(a.id);
        lemma_listing_rest(records, first);
        lemma_listing_rest(records, second);
        lemma_listing_unique(rest, first.drop_first(), second.drop_first());
        assert(first =~= seq![a] + first.drop_first());
        assert(second =~= seq![a] + second.drop_first());
    }
}

/// Without its first record, a listing lists the store without that record.
proof fn lemma_listing_rest(records: Map<u128, TodoView>, listing: Seq<TodoView>)
    requires
        is_listing(records, listing),
        listing.len() > 0,
    ensures
        is_listing(records.remove(listing[0].id), listing.drop_first()),
{
    let head = listing[0];
    let rest = records.remove(head.id);
    let tail = listing.drop_first();
    assert forall|i: int| 0 <= i < tail.len() implies rest.contains_key((#[trigger] tail[i]).id)
        && rest[tail[i].id] == tail[i] by {
        assert(tail[i] == listing[i + 1]);
        assert(comes_before(listing[0], listing[i + 1]));
    }
    assert forall|id: u128| #[trigger] rest.contains_key(id) implies exists|i: int|
        0 <= i < tail.len() && (#[trigger] tail[i]).id == id by {
        assert(records.contains_key(id));
        let k = choose|k: int| 0 <= k < listing.len() && (#[trigger] listing[k]).id == id;
        assert(k > 0);
        assert(tail[k - 1] == listing[k]);
    }
    assert forall|i: int, j: int| 0 <= i < j < tail.len() implies comes_before(
        #[trigger] tail[i],
        #[trigger] tail[j],
    ) by {
        assert(tail[i] == listing[i + 1] && tail[j] == listing[j + 1]);
    }
}

/// The store of todo records.
pub struct AppState {
    todos: HashMap<u128, Todo>,
}

/// Whether `a` comes before `b` in a listing.
fn precedes(a: &Todo, b: &Todo) -> (r: bool)
    ensures
        r == comes_before(a@, b@),
{
    a.created_at > b.created_at || (a.created_at == b.created_at && a.id < b.id)
}

impl AppState {
    #[verifier::type_invariant]
    spec fn well_formed(self) -> bool {
        consistent(Self::records_of(self.todos@))
    }

    spec fn records_of(todos: Map<u128, Todo>) -> Map<u128, TodoView> {
        Map::new(|id: u128| todos.contains_key(id), |id: u128| todos[id]@)
    }

    /// The records of the store, by identifier.
    pub closed spec fn view(&self) -> Map<u128, TodoView> {
        Self::records_of(self.todos@)
    }

    /// An empty store.
    pub fn new() -> (state: AppState)
        ensures
            state@ == Map::<u128, TodoView>::empty(),
    {
        let state = AppState { todos: HashMap::new() };
        assert(state@ =~= Map::<u128, TodoView>::empty());
        state
    }

    /// Inserts a record under its identifier and hands back a copy of it.
    /// An identifier that is already in use is a fault, and leaves the
    /// store as it was.
    pub fn create(&mut self, record: Todo) -> (r: Result<Todo, AppError>)
        requires
            record@.is_valid(),
        ensures
            consistent(old(self)@),
            consistent(final(self)@),
            match r {
                Ok(t) => {
                    &&& !old(self)@.contains_key(record.id)
                    &&& t@ == record@
                    &&& final(self)@ == old(self)@.insert(record.id, record@)
                },
                Err(e) => {
                    &&& old(self)@.contains_key(record.id)
                    &&& e@ == AppErrorView::Internal(create_fault())
                    &&& final(self)@ == old(self)@
                },
            },
    {
        proof {
            use_type_invariant(&*self);
        }
        if self.todos.contains_key(&record.id) {
            return Err(AppError::Internal(String::from_str("failed to create todo")));
        }
        let copy = record.clone();
        let ghost before = self.todos@;
        let mut todos: HashMap<u128, Todo> = HashMap::new();
        core::mem::swap(&mut self.todos, &mut todos);
        todos.insert(record.id, record);
        proof {
            assert(Self::records_of(todos@) =~= Self::records_of(before).insert(copy.id, copy@));
        }
        core::mem::swap(&mut self.todos, &mut todos);
        Ok(copy)
    }

    /// What holds of every store, for a caller to rely on. The call does
    /// nothing when the program runs.
    pub fn consistency(&self)
        ensures
            consistent(self@),
    {
        proof {
            use_type_invariant(self);
        }
    }

    /// Whether there is a record under `id`.
    pub fn contains(&self, id: u128) -> (b: bool)
        ensures
            consistent(self@),
            b == self@.contains_key(id),
    {
        proof {
            use_type_invariant(self);
        }
        self.todos.contains_key(&id)
    }

    /// A copy of the record under `id`, if there is one.
    pub fn get(&self, id: u128) -> (r: Option<Todo>)
        ensures
            consistent(self@),
            match r {
                Some(t) => self@.contains_key(id) && t@ == self@[id],
                None => !self@.contains_key(id),
            },
    {
        proof {
            use_type_invariant(self);
        }
        match self.todos.get(&id) {
            Some(t) => Some(t.clone()),
            None => None,
        }
    }

    /// The identifiers of all records, each once.
    fn ids(&self) -> (v: Vec<u128>)
        ensures
            v@.no_duplicates(),
            forall|id: u128| v@.contains(id) <==> self@.contains_key(id),
    {
        let mut v: Vec<u128> = Vec::new();
        let ghost all = spec_keys_iter(&self.todos).remaining();
        for k in it: self.todos.keys()
            invariant
                it.seq() == all,
                v@ == it.seq().take(it.index() as int).unref(),
        {
            v.push(*k);
        }
        proof {
            assert(all.take(all.len() as int) == all);
            assert(v@ == all.unref());
            assert(v@.to_set() == self.todos@.dom());
            assert forall|id: u128| v@.contains(id) <==> self@.contains_key(id) by {
                assert(v@.contains(id) <==> v@.to_set().contains(id));
            }
        }
        v
    }

    /// Copies of all records: the newest first, and of records created
    /// at the same time the one with the smaller identifier first.
    pub fn list(&self) -> (listing: Vec<Todo>)
        ensures
            consistent(self@),
            is_listing(self@, todo_views(listing@)),
    {
        proof {
            use_type_invariant(self);
        }
        let ids = self.ids();
        let mut out: Vec<Todo> = Vec::new();
        let n: usize = ids.len();
        let mut k: usize = 0;
        assert(ids@.take(0) =~= Seq::<u128>::empty());
        while k < n
            invariant
                k <= n,
                n == ids@.len(),
                ids@.no_duplicates(),
                consistent(self@),
                forall|id: u128| ids@.contains(id) <==> self@.contains_key(id),
                lists(self@, ids@.take(k as int), todo_views(out@)),
            decreases n - k,
        {
            let id = ids[k];
            let ghost done = ids@.take(k as int);
            let ghost before = todo_views(out@);
            proof {
                assert(ids@.contains(id));
                assert(!done.contains(id)) by {
                    if done.contains(id) {
                        let j = choose|j: int| 0 <= j < done.len() && done[j] == id;
                        assert(ids@[j] == ids@[k as int]);
                    }
                }
                assert(ids@.take(k + 1) =~= done.push(id));
            }
            match self.get(id) {
                Some(record) => {
                    proof {
                        assert forall|i: int| 0 <= i < out@.len() implies (#[trigger] out@[i]).id
                            != record.id by {
                            assert(before[i].id == out@[i].id);
                            assert(done.contains(before[i].id));
                        }
                    }
                    let ghost r = record@;
                    insert_in_order(&mut out, record);
                    proof {
                        let p = choose|p: int|
                            0 <= p <= before.len() && todo_views(out@) == before.insert(p, r);
                        lemma_lists_insert(self@, done, before, r, p);
                    }
                },
                None => {
                    assert(false);
                },
            }
            k += 1;
        }
        proof {
            assert(ids@.take(n as int) =~= ids@);
            let l = todo_views(out@);
            assert forall|id: u128| #[trigger] self@.contains_key(id) implies exists|i: int|
                0 <= i < l.len() && (#[trigger] l[i]).id == id by {
                assert(ids@.contains(id));
                let j = choose|j: int| 0 <= j < ids@.len() && ids@[j] == id;
                assert(ids@[j] == id);
            }
        }
        out
    }

    /// Replaces the record under `id` by what `mutator` makes of it, and
    /// hands back a copy of the new record; fails where there is no such
    /// record. Reading, changing and writing are one step: the store is
    /// held from the first to the last of them.
    pub fn update<F: FnOnce(Todo) -> Todo>(&mut self, id: u128, mutator: F) -> (r: Result<
        Todo,
        AppError,
    >)
        requires
            forall|t: Todo|
                old(self)@.contains_key(id) && t@ == old(self)@[id] ==> mutator.requires((t,)),
            forall|t: Todo, u: Todo|
                old(self)@.contains_key(id) && t@ == old(self)@[id] && mutator.ensures((t,), u)
                    ==> same_identity(t@, u@) && u@.is_valid(),
        ensures
            consistent(old(self)@),
            consistent(final(self)@),
            match r {
                Ok(u) => {
                    &&& old(self)@.contains_key(id)
                    &&& final(self)@ == old(self)@.insert(id, u@)
                    &&& exists|t: Todo, w: Todo|
                        t@ == old(self)@[id] && w@ == u@ && mutator.ensures((t,), w)
                },
                Err(e) => {
                    &&& !old(self)@.contains_key(id)
                    &&& e@ == AppErrorView::NotFound
                    &&& final(self)@ == old(self)@
                },
            },
    {
        proof {
            use_type_invariant(&*self);
        }
        let ghost before = self.todos@;
        let mut todos: HashMap<u128, Todo> = HashMap::new();
        core::mem::swap(&mut self.todos, &mut todos);
        let r = match todos.remove(&id) {
            Some(current) => {
                let ghost t = current;
                proof {
                    assert(before.contains_key(id) && before[id] == current);
                    assert(old(self)@.contains_key(id) && current@ == old(self)@[id]);
                }
                let changed = mutator(current);
                let copy = changed.clone();
                let ghost w = changed;
                todos.insert(id, changed);
                proof {
                    assert(mutator.ensures((t,), w));
                    assert(same_identity(t@, w@) && w@.is_valid());
                    assert(todos@ == before.remove(id).insert(id, w));
                    assert(Self::records_of(todos@) =~= Self::records_of(before).insert(id, w@));
                    assert(consistent(Self::records_of(todos@)));
                }
                Ok(copy)
            },
            None => {
                proof {
                    assert(todos@ =~= before);
                }
                Err(AppError::NotFound)
            },
        };
        core::mem::swap(&mut self.todos, &mut todos);
        r
    }

    /// Removes the record under `id`; fails where there is none.
    pub fn delete(&mut self, id: u128) -> (r: Result<(), AppError>)
        ensures
            consistent(old(self)@),
            consistent(final(self)@),
            match r {
                Ok(_) => old(self)@.contains_key(id) && final(self)@ == old(self)@.remove(id),
                Err(e) => {
                    &&& !old(self)@.contains_key(id)
                    &&& e@ == AppErrorView::NotFound
                    &&& final(self)@ == old(self)@
                },
            },
    {
        proof {
            use_type_invariant(&*self);
        }
        let ghost before = self.todos@;
        let mut todos: HashMap<u128, Todo> = HashMap::new();
        core::mem::swap(&mut self.todos, &mut todos);
        let removed = todos.remove(&id);
        proof {
            assert(todos@ == before.remove(id));
            assert(Self::records_of(todos@) =~= Self::records_of(before).remove(id));
        }
        core::mem::swap(&mut self.todos, &mut todos);
        match removed {
            Some(_) => Ok(()),
            None => {
                proof {
                    assert(self@ =~= old(self)@);
                }
                Err(AppError::NotFound)
            },
        }
    }
}

} // verus!
