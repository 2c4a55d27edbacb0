//! The todo store and its five operations: create, list (find_all),
//! get-by-id (find_by_id), update, and delete. Each operation is a single
//! pass over the store; the store is the single source of truth.
//!
//! The store assigns ids starting at 1, in creation order, and never
//! reuses an id after deletion; records are held in strictly ascending
//! id order.

use vstd::prelude::*;

use crate::api::todo::Todo;

verus! {

/// Whether a store state is well formed: every id is at least 1 and
/// below the next id to assign, and ids are strictly ascending.
pub open spec fn wf_state(s: Seq<Todo>, next_id: int) -> bool {
    &&& 1 <= next_id <= i64::MAX
    &&& forall|i: int| 0 <= i < s.len() ==> 1 <= (#[trigger] s[i])@.id < next_id
    &&& forall|i: int, j: int| 0 <= i < j < s.len() ==> s[i]@.id < s[j]@.id
}

/// Whether some record in `s` has id `id`.
pub open spec fn contains_id(s: Seq<Todo>, id: int) -> bool {
    exists|i: int| 0 <= i < s.len() && (#[trigger] s[i])@.id == id
}

/// Distinct positions of a well-formed store hold distinct ids.
pub proof fn lemma_ids_unique(s: Seq<Todo>, next_id: int)
    requires
        wf_state(s, next_id),
    ensures
        forall|i: int, j: int|
            0 <= i < s.len() && 0 <= j < s.len() && i != j ==> (#[trigger] s[i])@.id != (
            #[trigger] s[j])@.id,
{
}

/// An id the store has never assigned is absent: get-by-id, update and
/// delete all report absence for it, never an error.
pub proof fn lemma_unassigned_id_absent(s: Seq<Todo>, next_id: int, id: int)
    requires
        wf_state(s, next_id),
        id < 1 || id >= next_id,
    ensures
        !contains_id(s, id),
{
}

/// In a well-formed store, the ids listed are non-decreasing from front
/// to back, whatever updates and deletions produced the state.
pub proof fn lemma_store_ids_sorted(s: Seq<Todo>, next_id: int)
    requires
        wf_state(s, next_id),
    ensures
        forall|i: int, j: int|
            0 <= i <= j < s.len() ==> (#[trigger] s[i])@.id <= (#[trigger] s[j])@.id,
{
}

/// A record just created is well formed to append, is found under its
/// id, and is the only record under it: a fetch right after a create
/// returns the created record, equal in every field.
pub proof fn lemma_created_todo_is_found(s: Seq<Todo>, next_id: int, t: Todo)
    requires
        wf_state(s, next_id),
        next_id < i64::MAX,
        t@.id == next_id,
    ensures
        wf_state(s.push(t), next_id + 1),
        contains_id(s.push(t), t@.id),
        forall|i: int|
            0 <= i < s.push(t).len() && (#[trigger] s.push(t)[i])@.id == t@.id ==> s.push(t)[i]
                == t,
{
    assert(s.push(t)[s.len() as int] == t);
    assert(forall|i: int| 0 <= i < s.len() ==> #[trigger] s.push(t)[i] == s[i]);
}

/// A record just updated in place is well formed to store, is found
/// under its id, and is the only record under it: a fetch right after an
/// update returns the updated record, equal in every field.
pub proof fn lemma_updated_todo_is_found(s: Seq<Todo>, next_id: int, i: int, t: Todo)
    requires
        wf_state(s, next_id),
        0 <= i < s.len(),
        t@.id == s[i]@.id,
    ensures
        wf_state(s.update(i, t), next_id),
        contains_id(s.update(i, t), t@.id),
        forall|j: int|
            0 <= j < s.update(i, t).len() && (#[trigger] s.update(i, t)[j])@.id == t@.id ==> s
                .update(i, t)[j] == t,
{
    assert(forall|j: int| 0 <= j < s.len() && j != i ==> #[trigger] s.update(i, t)[j] == s[j]);
    assert(s.update(i, t)[i] == t);
}

/// Removing the record at a position removes its id entirely: a second
/// delete of the same id finds nothing and reports false, and a fetch
/// reports absence.
pub proof fn lemma_delete_removes_id(s: Seq<Todo>, next_id: int, i: int)
    requires
        wf_state(s, next_id),
        0 <= i < s.len(),
    ensures
        wf_state(s.remove(i), next_id),
        !contains_id(s.remove(i), s[i]@.id),
{
    assert(forall|j: int| 0 <= j < i ==> #[trigger] s.remove(i)[j] == s[j]);
    assert(forall|j: int|
        i <= j < s.len() - 1 ==> #[trigger] s.remove(i)[j] == s[j + 1]);
    assert forall|j: int| 0 <= j < s.remove(i).len() implies (#[trigger] s.remove(i)[j])@.id
        != s[i]@.id by {
        if j < i {
            assert(s.remove(i)[j] == s[j]);
        } else {
            assert(s.remove(i)[j] == s[j + 1]);
        }
    }
}

/// The in-memory todo store: records in ascending id order, plus the
/// next id to assign.
pub struct TodoStore {
    todos: Vec<Todo>,
    next_id: i64,
}

impl View for TodoStore {
    type V = Seq<Todo>;

    closed spec fn view(&self) -> Seq<Todo> {
        self.todos@
    }
}

impl TodoStore {
    /// The next id the store will assign.
    pub closed spec fn spec_next_id(&self) -> int {
        self.next_id as int
    }

    /// The store's invariant; constructors establish it and every
    /// operation preserves it.
    pub open spec fn wf(&self) -> bool {
        wf_state(self@, self.spec_next_id())
    }

    /// An empty store; the first assigned id is 1.
    pub fn new() -> (s: TodoStore)
        ensures
            s.wf(),
            s@ == Seq::<Todo>::empty(),
            s.spec_next_id() == 1,
    {
        TodoStore { todos: Vec::new(), next_id: 1 }
    }

    /// The next id to assign, readable so a caller can refuse work when
    /// the id space is exhausted.
    pub fn next_id(&self) -> (r: i64)
        ensures
            r as int == self.spec_next_id(),
    {
        self.next_id
    }
}

/// Insert a new record: the store assigns the next id, `completed`
/// starts false, and both timestamps are set to `now`.
pub fn create(store: &mut TodoStore, title: &str, description: Option<&str>, now: &str) -> (todo:
    Todo)
    requires
        old(store).wf(),
        old(store).spec_next_id() < i64::MAX,
    ensures
        final(store).wf(),
        final(store).spec_next_id() == old(store).spec_next_id() + 1,
        final(store)@ == old(store)@.push(todo),
        todo@.id == old(store).spec_next_id(),
        todo@.title == title@,
        todo@.description == description.deep_view(),
        todo@.completed == false,
        todo@.created_at == now@,
        todo@.updated_at == now@,
{
    let id = store.next_id;
    let description_owned = match description {
        Some(d) => Some(String::from_str(d)),
        None => None,
    };
    let todo = Todo::new(
        id,
        String::from_str(title),
        description_owned,
        false,
        String::from_str(now),
        String::from_str(now),
    );
    proof {
        lemma_created_todo_is_found(store@, store.spec_next_id(), todo);
    }
    store.todos.push(todo.duplicate());
    store.next_id = id + 1;
    todo
}

/// List every record, in ascending id order.
pub fn find_all(store: &TodoStore) -> (r: Vec<Todo>)
    ensures
        r@ == store@,
{
    let n = store.todos.len();
    let mut r: Vec<Todo> = Vec::new();
    let mut i: usize = 0;
    while i < n
        invariant
            i <= n,
            n == store@.len(),
            r@ =~= store@.subrange(0, i as int),
        decreases n - i,
    {
        r.push(store.todos[i].duplicate());
        proof {
            assert(r@ =~= store@.subrange(0, i + 1 as int));
        }
        i += 1;
    }
    proof {
        assert(store@.subrange(0, n as int) =~= store@);
    }
    r
}

/// Fetch the record with the given id, or report absence; absence is not
/// an error.
pub fn find_by_id(store: &TodoStore, id: i64) -> (r: Option<Todo>)
    requires
        store.wf(),
    ensures
        r is Some <==> contains_id(store@, id as int),
        r matches Some(t) ==> exists|i: int|
            0 <= i < store@.len() && #[trigger] store@[i] == t && t@.id == id as int,
{
    let n = store.todos.len();
    let mut i: usize = 0;
    while i < n
        invariant
            i <= n,
            n == store@.len(),
            forall|j: int| 0 <= j < i ==> (#[trigger] store@[j])@.id != id as int,
        decreases n - i,
    {
        if store.todos[i].id() == id {
            let t = store.todos[i].duplicate();
            assert(contains_id(store@, id as int)) by {
                assert((store@[i as int])@.id == id as int);
            }
            return Some(t);
        }
        i += 1;
    }
    assert(!contains_id(store@, id as int));
    None
}

/// Replace title, description and completed of the record with the given
/// id, together and atomically, refreshing `updated_at` to `now`; id and
/// `created_at` are immutable. An absent id yields `None` and changes
/// nothing: no record is created.
pub fn update(
    store: &mut TodoStore,
    id: i64,
    title: &str,
    description: Option<&str>,
    completed: bool,
    now: &str,
) -> (r: Option<Todo>)
    requires
        old(store).wf(),
    ensures
        final(store).wf(),
        final(store).spec_next_id() == old(store).spec_next_id(),
        r is Some <==> contains_id(old(store)@, id as int),
        r is None ==> final(store)@ == old(store)@,
        r matches Some(t) ==> ({
            &&& t@.id == id as int
            &&& t@.title == title@
            &&& t@.description == description.deep_view()
            &&& t@.completed == completed
            &&& t@.updated_at == now@
            &&& exists|i: int|
                0 <= i < old(store)@.len() && (#[trigger] old(store)@[i])@.id == id as int && t@.created_at
                    == old(store)@[i]@.created_at && final(store)@ == old(store)@.update(i, t)
        }),
{
    let n = store.todos.len();
    let mut i: usize = 0;
    while i < n
        invariant
            store == old(store),
            store.wf(),
            i <= n,
            n == store@.len(),
            forall|j: int| 0 <= j < i ==> (#[trigger] store@[j])@.id != id as int,
        decreases n - i,
    {
        if store.todos[i].id() == id {
            let description_owned = match description {
                Some(d) => Some(String::from_str(d)),
                None => None,
            };
            let created_at = String::from_str(store.todos[i].created_at());
            let t = Todo::new(
                id,
                String::from_str(title),
                description_owned,
                completed,
                created_at,
                String::from_str(now),
            );
            proof {
                assert((store@[i as int])@.id == id as int);
                assert(contains_id(store@, id as int));
                lemma_updated_todo_is_found(store@, store.spec_next_id(), i as int, t);
            }
            store.todos.set(i, t.duplicate());
            return Some(t);
        }
        i += 1;
    }
    assert(!contains_id(store@, id as int));
    None
}

/// Remove the record with the given id, reporting whether a record was
/// removed; an absent id yields false, not an error, and a second delete
/// of the same id yields false again.
pub fn delete(store: &mut TodoStore, id: i64) -> (r: bool)
    requires
        old(store).wf(),
    ensures
        final(store).wf(),
        final(store).spec_next_id() == old(store).spec_next_id(),
        r == contains_id(old(store)@, id as int),
        !r ==> final(store)@ == old(store)@,
        r ==> exists|i: int|
            0 <= i < old(store)@.len() && (#[trigger] old(store)@[i])@.id == id as int
                && final(store)@ == old(store)@.remove(i),
{
    let n = store.todos.len();
    let mut i: usize = 0;
    while i < n
        invariant
            store == old(store),
            store.wf(),
            i <= n,
            n == store@.len(),
            forall|j: int| 0 <= j < i ==> (#[trigger] store@[j])@.id != id as int,
        decreases n - i,
    {
        if store.todos[i].id() == id {
            proof {
                assert((store@[i as int])@.id == id as int);
                assert(contains_id(store@, id as int));
                lemma_delete_removes_id(store@, store.spec_next_id(), i as int);
            }
            store.todos.remove(i);
            return true;
        }
        i += 1;
    }
    assert(!contains_id(store@, id as int));
    false
}

} // verus!
