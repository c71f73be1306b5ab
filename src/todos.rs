use vstd::prelude::*;

use crate::error::StoreError;

verus! {

/// One item of the to-do list.
#[derive(Clone, Debug, PartialEq, Eq)]
pub struct Todo {
    /// Caller-assigned identifier, unique within a list.
    pub id: String,
    pub title: String,
    pub completed: bool,
    /// When the item was last modified; 0 when unknown.
    pub updated_at: i64,
    /// When the item was first created; 0 when unknown.
    pub created_at: i64,
    /// When the item was completed, if it ever was.
    pub completed_at: Option<i64>,
}

/// The whole persisted to-do document.
#[derive(Clone, Debug, PartialEq, Eq)]
pub struct TodosPayload {
    /// The items, in the caller's display order.
    pub todos: Vec<Todo>,
    /// When the list as a whole was last saved; 0 when unknown.
    pub updated_at: i64,
}

/// The mathematical model of a [`TodosPayload`].
pub ghost struct TodoList {
    pub todos: Seq<Todo>,
    pub updated_at: i64,
}

impl View for TodosPayload {
    type V = TodoList;

    open spec fn view(&self) -> TodoList {
        TodoList { todos: self.todos@, updated_at: self.updated_at }
    }
}

/// The list that a read yields when there is nothing usable on disk.
pub open spec fn empty_list() -> TodoList {
    TodoList { todos: Seq::empty(), updated_at: 0 }
}

/// Whether an item predates creation-time tracking: it has a modification
/// time but no creation time.
pub open spec fn needs_backfill(t: Todo) -> bool {
    t.created_at == 0 && t.updated_at != 0
}

/// The item as a read presents it: an item that predates creation-time
/// tracking takes its modification time as its creation time.
pub open spec fn backfilled(t: Todo) -> Todo {
    if needs_backfill(t) {
        Todo { created_at: t.updated_at, ..t }
    } else {
        t
    }
}

/// Every item backfilled, order kept.
pub open spec fn backfilled_todos(s: Seq<Todo>) -> Seq<Todo> {
    s.map_values(|t: Todo| backfilled(t))
}

/// The list with every item backfilled.
pub open spec fn backfilled_list(l: TodoList) -> TodoList {
    TodoList { todos: backfilled_todos(l.todos), updated_at: l.updated_at }
}

impl Todo {
    /// Sets the creation time to the modification time when the item has a
    /// modification time but no creation time; leaves it unchanged otherwise.
    pub fn backfill_created_at(&mut self)
        ensures
            *final(self) == backfilled(*old(self)),
    {
        if self.created_at == 0 && self.updated_at != 0 {
            self.created_at = self.updated_at;
        }
    }
}

/// Backfills the creation time of every item, keeping the order.
pub fn backfill_todos(todos: &mut Vec<Todo>)
    ensures
        final(todos)@ == backfilled_todos(old(todos)@),
{
    let n = todos.len();
    let mut i: usize = 0;
    while i < n
        invariant
            n == old(todos)@.len(),
            todos@.len() == n,
            0 <= i <= n,
            forall|j: int| 0 <= j < i ==> todos@[j] == backfilled(old(todos)@[j]),
            forall|j: int| i <= j < n ==> todos@[j] == old(todos)@[j],
        decreases n - i,
    {
        todos[i].backfill_created_at();
        i = i + 1;
    }
    assert(todos@ =~= backfilled_todos(old(todos)@));
}

impl TodosPayload {
    /// The list a first run sees: no items, never saved.
    pub fn empty() -> (r: TodosPayload)
        ensures
            r@ == empty_list(),
    {
        TodosPayload { todos: Vec::new(), updated_at: 0 }
    }
}

/// What was found where the to-do file should be.
#[derive(Clone, Debug, PartialEq, Eq)]
pub enum StoredTodos {
    /// No file exists yet.
    Missing,
    /// The file exists but could not be read; carries the reason.
    Unreadable(String),
    /// The file was read but does not decode as a to-do document.
    Malformed,
    /// The file decodes to this document.
    Document(TodosPayload),
}

/// A read's result, with the payload replaced by its model.
pub open spec fn list_result(r: Result<TodosPayload, StoreError>) -> Result<TodoList, StoreError> {
    match r {
        Ok(p) => Ok(p@),
        Err(e) => Err(e),
    }
}

/// What reading the to-do list yields, given what was found in the file: the
/// empty list when there is no file or it does not decode, an error when it
/// cannot be read, and otherwise the stored list with every item backfilled.
pub open spec fn todos_outcome(stored: StoredTodos) -> Result<TodoList, StoreError> {
    match stored {
        StoredTodos::Missing => Ok(empty_list()),
        StoredTodos::Unreadable(m) => Err(StoreError::Io(m)),
        StoredTodos::Malformed => Ok(empty_list()),
        StoredTodos::Document(p) => Ok(backfilled_list(p@)),
    }
}

/// Decides the result of reading the to-do list from what the file held.
/// The backfill is applied to the returned list only, never written back.
pub fn read_todos(stored: StoredTodos) -> (r: Result<TodosPayload, StoreError>)
    ensures
        list_result(r) == todos_outcome(stored),
        stored is Missing ==> r is Ok && r->Ok_0@ == empty_list(),
        stored is Malformed ==> r is Ok && r->Ok_0@ == empty_list(),
{
    match stored {
        StoredTodos::Missing => Ok(TodosPayload::empty()),
        StoredTodos::Unreadable(m) => Err(StoreError::Io(m)),
        StoredTodos::Malformed => Ok(TodosPayload::empty()),
        StoredTodos::Document(p) => {
            let mut p = p;
            backfill_todos(&mut p.todos);
            Ok(p)
        },
    }
}

/// Reading back a written list: once the file holds the document `p`, a read
/// succeeds and returns `p` item for item, in the same order and with the same
/// list timestamp, except that an item with no creation time but a
/// modification time takes the modification time as its creation time.
pub proof fn lemma_write_then_read(p: TodosPayload)
    ensures
        todos_outcome(StoredTodos::Document(p)) is Ok,
        ({
            let l = todos_outcome(StoredTodos::Document(p))->Ok_0;
            &&& l.updated_at == p.updated_at
            &&& l.todos.len() == p.todos@.len()
            &&& forall|i: int|
                0 <= i < p.todos@.len() ==> {
                    let (a, b) = (p.todos@[i], #[trigger] l.todos[i]);
                    if a.created_at == 0 && a.updated_at != 0 {
                        b == Todo { created_at: a.updated_at, ..a }
                    } else {
                        b == a
                    }
                }
        }),
{
}

/// The backfill does not drift: applying it to an already backfilled list
/// changes nothing.
pub proof fn lemma_backfill_idempotent(l: TodoList)
    ensures
        backfilled_list(backfilled_list(l)) == backfilled_list(l),
{
    assert(backfilled_todos(backfilled_todos(l.todos)) =~= backfilled_todos(l.todos));
}

/// Reads are stable: two reads of the same file yield the same result, and
/// writing back what a read returned and reading again yields it once more,
/// since the backfill recomputed on the second read changes nothing.
pub proof fn lemma_read_stable(
    stored: StoredTodos,
    first: Result<TodosPayload, StoreError>,
    second: Result<TodosPayload, StoreError>,
    written: TodosPayload,
)
    requires
        list_result(first) == todos_outcome(stored),
        list_result(second) == todos_outcome(stored),
    ensures
        list_result(first) == list_result(second),
        first is Ok && written@ == first->Ok_0@ ==> todos_outcome(StoredTodos::Document(written))
            == list_result(first),
{
    if first is Ok && written@ == first->Ok_0@ {
        match stored {
            StoredTodos::Document(p) => lemma_backfill_idempotent(p@),
            _ => {
                assert(backfilled_todos(written.todos@) =~= written.todos@);
            },
        }
    }
}

} // verus!
