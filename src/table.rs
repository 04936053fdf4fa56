use vstd::prelude::*;

verus! {

/// A stored row, apart from its key and its storage-assigned creation time.
pub struct Row {
    pub description: Seq<char>,
    pub completed: int,
}

/// The tasks table: rows by id.
pub type Table = Map<Seq<char>, Row>;

/// One request against the table, as plain values.
#[allow(inconsistent_fields)]
pub enum Op {
    Insert { id: Seq<char>, description: Seq<char>, completed: int },
    FetchAll,
    Update { id: Seq<char>, description: Option<Seq<char>>, completed: Option<int> },
    Delete { id: Seq<char> },
}

/// The row after a partial update: each supplied field replaces the old one.
pub open spec fn patch_row(row: Row, description: Option<Seq<char>>, completed: Option<int>) -> Row {
    Row {
        description: match description {
            Some(d) => d,
            None => row.description,
        },
        completed: match completed {
            Some(c) => c,
            None => row.completed,
        },
    }
}

impl Op {
    /// Whether the storage layer accepts the request on `t`: an insert needs a
    /// fresh key, and an update's re-read needs the row to be there.
    pub open spec fn succeeds_on(self, t: Table) -> bool {
        match self {
            Op::Insert { id, .. } => !t.contains_key(id),
            Op::FetchAll => true,
            Op::Update { id, .. } => t.contains_key(id),
            Op::Delete { .. } => true,
        }
    }

    /// The table after the request has succeeded.
    pub open spec fn apply(self, t: Table) -> Table {
        match self {
            Op::Insert { id, description, completed } => t.insert(
                id,
                Row { description, completed },
            ),
            Op::FetchAll => t,
            Op::Update { id, description, completed } => if t.contains_key(id) {
                t.insert(id, patch_row(t[id], description, completed))
            } else {
                t
            },
            Op::Delete { id } => t.remove(id),
        }
    }
}

/// The ids that a listing of `t` returns.
pub open spec fn listed_ids(t: Table) -> Set<Seq<char>> {
    t.dom()
}

/// `t` after the requests of `ops`, in order.
pub open spec fn run(t: Table, ops: Seq<Op>) -> Table
    decreases ops.len(),
{
    if ops.len() == 0 {
        t
    } else {
        ops.last().apply(run(t, ops.drop_last()))
    }
}

/// Every request of `ops` succeeds when they are made in order from `t`.
pub open spec fn all_succeed(t: Table, ops: Seq<Op>) -> bool
    decreases ops.len(),
{
    if ops.len() == 0 {
        true
    } else {
        all_succeed(t, ops.drop_last()) && ops.last().succeeds_on(run(t, ops.drop_last()))
    }
}

/// The ids that the inserts among `ops` name.
pub open spec fn inserted_ids(ops: Seq<Op>) -> Set<Seq<char>> {
    Set::new(|k: Seq<char>| exists|i: int| 0 <= i < ops.len() && (#[trigger] ops[i]) is Insert && ops[i]->Insert_id == k)
}

/// After N successful creates and no deletes, starting from an empty table, a
/// listing returns exactly the N created ids.
pub proof fn lemma_list_after_creates(ops: Seq<Op>)
    requires
        forall|i: int| 0 <= i < ops.len() ==> (#[trigger] ops[i]) is Insert,
        all_succeed(Map::empty(), ops),
    ensures
        listed_ids(run(Map::empty(), ops)) == inserted_ids(ops),
        listed_ids(run(Map::empty(), ops)).finite(),
        listed_ids(run(Map::empty(), ops)).len() == ops.len(),
    decreases ops.len(),
{
    let t0 = Map::<Seq<char>, Row>::empty();
    if ops.len() == 0 {
        assert(inserted_ids(ops) =~= Set::empty());
        assert(listed_ids(run(t0, ops)) =~= Set::empty());
    } else {
        let init = ops.drop_last();
        assert forall|i: int| 0 <= i < init.len() implies (#[trigger] init[i]) is Insert by {
            assert(init[i] == ops[i]);
        }
        lemma_list_after_creates(init);
        let before = run(t0, init);
        let id = ops.last()->Insert_id;
        assert(!before.contains_key(id));
        assert(run(t0, ops).dom() =~= before.dom().insert(id));
        assert forall|k: Seq<char>| inserted_ids(ops).contains(k) <==> before.dom().insert(id).contains(k) by {
            if inserted_ids(ops).contains(k) {
                let i = choose|i: int| 0 <= i < ops.len() && (#[trigger] ops[i]) is Insert && ops[i]->Insert_id == k;
                if i < init.len() {
                    assert(init[i] == ops[i]);
                    assert(inserted_ids(init).contains(k));
                }
            }
            if before.dom().contains(k) && k != id {
                assert(inserted_ids(init).contains(k));
                let i = choose|i: int| 0 <= i < init.len() && (#[trigger] init[i]) is Insert && init[i]->Insert_id == k;
                assert(init[i] == ops[i]);
            }
            if k == id {
                assert(ops[ops.len() - 1] == ops.last());
            }
        }
        assert(inserted_ids(ops) =~= before.dom().insert(id));
    }
}

/// Updating only the completion flag keeps the description, and updating only
/// the description keeps the flag; a row other than the updated one is kept.
pub proof fn lemma_partial_update_isolation(
    t: Table,
    id: Seq<char>,
    description: Option<Seq<char>>,
    completed: Option<int>,
)
    requires
        t.contains_key(id),
    ensures
        ({
            let after = Op::Update { id, description, completed }.apply(t);
            &&& after.contains_key(id)
            &&& description is None ==> after[id].description == t[id].description
            &&& completed is None ==> after[id].completed == t[id].completed
            &&& description matches Some(d) ==> after[id].description == d
            &&& completed matches Some(c) ==> after[id].completed == c
            &&& forall|k: Seq<char>| k != id ==> (#[trigger] after.contains_key(k) <==> t.contains_key(k))
                && (t.contains_key(k) ==> after[k] == t[k])
        }),
{
}

/// A delete always succeeds; after it the id is no longer listed, every other
/// row is kept, and deleting an id that is not there changes nothing.
pub proof fn lemma_delete_then_list(t: Table, id: Seq<char>)
    ensures
        ({
            let after = Op::Delete { id }.apply(t);
            &&& Op::Delete { id }.succeeds_on(t)
            &&& !listed_ids(after).contains(id)
            &&& forall|k: Seq<char>| k != id ==> (#[trigger] after.contains_key(k) <==> t.contains_key(k))
                && (t.contains_key(k) ==> after[k] == t[k])
            &&& !t.contains_key(id) ==> after == t
        }),
{
    if !t.contains_key(id) {
        assert(t.remove(id) =~= t);
    }
}

/// Create, mark done, delete: the new row is listed open with its
/// description, then done with the description unchanged, then gone.
pub proof fn lemma_round_trip(t: Table, id: Seq<char>, description: Seq<char>)
    requires
        !t.contains_key(id),
    ensures
        ({
            let created = Op::Insert { id, description, completed: 0 };
            let done = Op::Update { id, description: None, completed: Some(1) };
            let t1 = created.apply(t);
            let t2 = done.apply(t1);
            let t3 = Op::Delete { id }.apply(t2);
            &&& created.succeeds_on(t)
            &&& listed_ids(t1).contains(id) && t1[id] == Row { description, completed: 0 }
            &&& done.succeeds_on(t1)
            &&& listed_ids(t2).contains(id) && t2[id] == Row { description, completed: 1 }
            &&& !listed_ids(t3).contains(id)
        }),
{
}

} // verus!
