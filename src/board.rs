//! Boards: ordered columns and the allocator of task ids.

use vstd::prelude::*;

use crate::column::{first_at, holds_id, Column};
use crate::task::Task;

verus! {

/// Why a board operation did not apply.
#[derive(Debug, Clone, Copy, PartialEq, Eq, Structural)]
pub enum BoardError {
    /// The column index is not below the number of columns.
    ColumnIndexOutOfBounds,
    /// The named column holds no task with that id.
    TaskNotFound,
}

/// A board: a name, columns from left to right, and the next task id.
#[derive(Debug, Clone)]
pub struct Board {
    pub name: String,
    pub columns: Vec<Column>,
    pub next_task_id: usize,
}

impl Board {
    /// The id that the next task added will get.
    pub open spec fn next_id(self) -> nat {
        self.next_task_id as nat
    }

    /// The tasks of column `c`.
    pub open spec fn tasks_of(self, c: int) -> Seq<Task> {
        self.columns@[c].tasks@
    }

    /// Some column holds a task with id `id`.
    pub open spec fn holds_task(self, id: usize) -> bool {
        exists|c: int| 0 <= c < self.columns@.len() && holds_id(#[trigger] self.tasks_of(c), id)
    }

    /// Every task id is below the next id, and no id appears twice on the board.
    pub open spec fn wf(self) -> bool {
        &&& forall|c: int, i: int|
            0 <= c < self.columns@.len() && 0 <= i < self.tasks_of(c).len() ==> (#[trigger] self.tasks_of(
                c,
            )[i]).id < self.next_id()
        &&& forall|c1: int, i1: int, c2: int, i2: int|
            0 <= c1 < self.columns@.len() && 0 <= i1 < self.tasks_of(c1).len() && 0 <= c2
                < self.columns@.len() && 0 <= i2 < self.tasks_of(c2).len() && (#[trigger] self.tasks_of(
                c1,
            )[i1]).id == (#[trigger] self.tasks_of(c2)[i2]).id ==> c1 == c2 && i1 == i2
    }

    /// `new` is `old` with, at most, task `i` of column `c` changed.
    pub open spec fn changes_one(old: Board, c: int, i: int, new: Board) -> bool {
        &&& new.name == old.name
        &&& new.next_id() == old.next_id()
        &&& new.columns@.len() == old.columns@.len()
        &&& forall|k: int| 0 <= k < old.columns@.len() && k != c ==> new.columns@[k] == old.columns@[k]
        &&& new.columns@[c].name == old.columns@[c].name
        &&& new.tasks_of(c).len() == old.tasks_of(c).len()
        &&& forall|j: int| 0 <= j < old.tasks_of(c).len() && j != i ==> new.tasks_of(c)[j] == old.tasks_of(c)[j]
    }

    /// What an operation on the task `id` of column `ci` makes of `old`:
    /// the errors come exactly when the column or the task is missing, and
    /// otherwise the first such task is changed as `change` says.
    pub open spec fn task_op_post(
        old: Board,
        ci: usize,
        id: usize,
        new: Board,
        r: Result<(), BoardError>,
        change: spec_fn(Task, Task) -> bool,
    ) -> bool {
        match r {
            Err(BoardError::ColumnIndexOutOfBounds) => ci >= old.columns@.len() && new == old,
            Err(BoardError::TaskNotFound) => ci < old.columns@.len() && !holds_id(old.tasks_of(ci as int), id)
                && new == old,
            Ok(()) => ci < old.columns@.len() && exists|i: int|
                first_at(old.tasks_of(ci as int), id, i) && Board::changes_one(old, ci as int, i, new)
                    && change(old.tasks_of(ci as int)[i], new.tasks_of(ci as int)[i]),
        }
    }

    /// What an operation on the task `id` of column `ci` makes of `old`,
    /// whichever of its results came back.
    pub open spec fn task_op_any(
        old: Board,
        ci: usize,
        id: usize,
        new: Board,
        change: spec_fn(Task, Task) -> bool,
    ) -> bool {
        ||| Board::task_op_post(old, ci, id, new, Ok(()), change)
        ||| Board::task_op_post(old, ci, id, new, Err(BoardError::ColumnIndexOutOfBounds), change)
        ||| Board::task_op_post(old, ci, id, new, Err(BoardError::TaskNotFound), change)
    }

    /// What `add_task(ci, title)` makes of `old`, returning `r`.
    pub open spec fn add_post(old: Board, ci: usize, title: Seq<char>, new: Board, r: Result<usize, BoardError>) -> bool {
        match r {
            Err(e) => e == BoardError::ColumnIndexOutOfBounds && ci >= old.columns@.len() && new == old,
            Ok(id) => {
                &&& ci < old.columns@.len()
                &&& id == old.next_id()
                &&& new.next_id() == old.next_id() + 1
                &&& new.name == old.name
                &&& new.columns@.len() == old.columns@.len()
                &&& forall|k: int| 0 <= k < old.columns@.len() && k != ci ==> new.columns@[k] == old.columns@[k]
                &&& new.columns@[ci as int].name == old.columns@[ci as int].name
                &&& new.tasks_of(ci as int).drop_last() == old.tasks_of(ci as int)
                &&& new.tasks_of(ci as int).len() == old.tasks_of(ci as int).len() + 1
                &&& new.tasks_of(ci as int).last().is_fresh(id, title)
            },
        }
    }

    /// What `move_task(from, to, id)` makes of `old`, returning `r`.
    pub open spec fn move_post(old: Board, from: usize, to: usize, id: usize, new: Board, r: Result<(), BoardError>) -> bool {
        match r {
            Err(BoardError::ColumnIndexOutOfBounds) => (from >= old.columns@.len() || to >= old.columns@.len())
                && new == old,
            Err(BoardError::TaskNotFound) => from < old.columns@.len() && to < old.columns@.len() && !holds_id(
                old.tasks_of(from as int),
                id,
            ) && new == old,
            Ok(()) => {
                &&& from < old.columns@.len()
                &&& to < old.columns@.len()
                &&& new.name == old.name
                &&& new.next_id() == old.next_id()
                &&& new.columns@.len() == old.columns@.len()
                &&& forall|k: int| 0 <= k < old.columns@.len() ==> #[trigger] new.columns@[k].name == old.columns@[k].name
                &&& forall|k: int|
                    0 <= k < old.columns@.len() && k != from && k != to ==> #[trigger] new.columns@[k] == old.columns@[k]
                &&& exists|i: int|
                    first_at(old.tasks_of(from as int), id, i) && if from == to {
                        new.tasks_of(from as int) == old.tasks_of(from as int).remove(i).push(
                            old.tasks_of(from as int)[i],
                        )
                    } else {
                        &&& new.tasks_of(from as int) == old.tasks_of(from as int).remove(i)
                        &&& new.tasks_of(to as int) == old.tasks_of(to as int).push(old.tasks_of(from as int)[i])
                    }
            },
        }
    }

    /// A board as `new` makes it: the given name, the columns "To Do",
    /// "In Progress" and "Done", all empty, and next id 1.
    pub open spec fn is_new_board(self, name: Seq<char>) -> bool {
        &&& self.name@ == name
        &&& self.columns@.len() == 3
        &&& self.columns@[0].name@ == "To Do"@
        &&& self.columns@[1].name@ == "In Progress"@
        &&& self.columns@[2].name@ == "Done"@
        &&& forall|c: int| 0 <= c < 3 ==> (#[trigger] self.tasks_of(c)).len() == 0
        &&& self.next_id() == 1
    }

    /// Creates a board with the columns "To Do", "In Progress" and "Done",
    /// all empty; the first task will get the id 1.
    pub fn new(name: &str) -> (r: Board)
        ensures
            r.is_new_board(name@),
            r.wf(),
    {
        let mut columns: Vec<Column> = Vec::new();
        columns.push(Column::new("To Do"));
        columns.push(Column::new("In Progress"));
        columns.push(Column::new("Done"));
        Board { name: name.to_owned(), columns, next_task_id: 1 }
    }

    /// Creates a board with one empty column for each name, in order.
    pub fn with_columns(name: &str, column_names: Vec<String>) -> (r: Board)
        ensures
            r.name@ == name@,
            r.columns@.len() == column_names@.len(),
            forall|c: int| 0 <= c < column_names@.len() ==> (#[trigger] r.columns@[c]).name == column_names@[c],
            forall|c: int| 0 <= c < column_names@.len() ==> (#[trigger] r.tasks_of(c)).len() == 0,
            r.next_id() == 1,
            r.wf(),
    {
        let mut columns: Vec<Column> = Vec::new();
        let mut i: usize = 0;
        while i < column_names.len()
            invariant
                0 <= i <= column_names@.len(),
                columns@.len() == i,
                forall|c: int| 0 <= c < i ==> (#[trigger] columns@[c]).name == column_names@[c],
                forall|c: int| 0 <= c < i ==> (#[trigger] columns@[c]).tasks@.len() == 0,
            decreases column_names@.len() - i,
        {
            columns.push(Column { name: column_names[i].clone(), tasks: Vec::new() });
            i = i + 1;
        }
        Board { name: name.to_owned(), columns, next_task_id: 1 }
    }

    /// Rebuilds a stored board as it was written.
    pub fn restore(name: String, columns: Vec<Column>, next_task_id: usize) -> (r: Board)
        ensures
            r.name == name,
            r.columns == columns,
            r.next_id() == next_task_id,
    {
        Board { name, columns, next_task_id }
    }

    /// Adds a task with the given title at the end of a column, and returns
    /// its id. Ids count up from the board's next id and are never reused.
    pub fn add_task(&mut self, column_index: usize, title: &str) -> (r: Result<usize, BoardError>)
        requires
            column_index < old(self).columns@.len() ==> old(self).next_id() < usize::MAX,
        ensures
            Board::add_post(*old(self), column_index, title@, *final(self), r),
            old(self).wf() && r is Ok ==> final(self).wf() && !old(self).holds_task(r->Ok_0),
    {
        if column_index >= self.columns.len() {
            return Err(BoardError::ColumnIndexOutOfBounds);
        }
        let task_id = self.next_task_id;
        self.next_task_id = self.next_task_id + 1;
        let task = Task::new(task_id, title);
        self.columns[column_index].add_task(task);
        proof {
            let ghost ci = column_index as int;
            assert(self.tasks_of(ci).drop_last() =~= old(self).tasks_of(ci));
            if old(self).wf() {
                assert forall|c: int, i: int|
                    0 <= c < self.columns@.len() && 0 <= i < self.tasks_of(c).len() implies (c == ci && i
                        == old(self).tasks_of(c).len() && self.tasks_of(c)[i].id == task_id) || (i < old(
                        self,
                    ).tasks_of(c).len() && self.tasks_of(c)[i] == old(self).tasks_of(c)[i]) by {
                    if c != ci {
                        assert(self.columns@[c] == old(self).columns@[c]);
                    }
                }
                assert(self.wf());
                assert(!old(self).holds_task(task_id)) by {
                    if old(self).holds_task(task_id) {
                        let c = choose|c: int|
                            0 <= c < old(self).columns@.len() && holds_id(#[trigger] old(self).tasks_of(c), task_id);
                        let i = choose|i: int| 0 <= i < old(self).tasks_of(c).len() && #[trigger] old(self).tasks_of(c)[i].id == task_id;
                        assert(old(self).tasks_of(c)[i].id < old(self).next_id());
                    }
                }
            }
        }
        Ok(task_id)
    }

    /// Moves a task from one column to the end of another. Both indices are
    /// checked first; the task is looked for in `from_column` only. When the
    /// two columns are the same, the task goes to the end of that column.
    pub fn move_task(&mut self, from_column: usize, to_column: usize, task_id: usize) -> (r: Result<(), BoardError>)
        ensures
            Board::move_post(*old(self), from_column, to_column, task_id, *final(self), r),
            old(self).wf() ==> final(self).wf(),
    {
        if from_column >= self.columns.len() || to_column >= self.columns.len() {
            return Err(BoardError::ColumnIndexOutOfBounds);
        }
        if self.columns[from_column].position(task_id).is_none() {
            return Err(BoardError::TaskNotFound);
        }
        let removed = self.columns[from_column].remove_task(task_id);
        match removed {
            None => Err(BoardError::TaskNotFound),
            Some(task) => {
                let ghost mid = *self;
                self.columns[to_column].add_task(task);
                proof {
                    let i = choose|i: int|
                        first_at(old(self).tasks_of(from_column as int), task_id, i) && task == old(
                            self,
                        ).tasks_of(from_column as int)[i] && mid.tasks_of(from_column as int) == old(
                            self,
                        ).tasks_of(from_column as int).remove(i);
                    assert(first_at(old(self).tasks_of(from_column as int), task_id, i));
                    assert(Board::move_post(*old(self), from_column, to_column, task_id, *self, Ok(())));
                    if old(self).wf() {
                        lemma_move_wf(*old(self), from_column, to_column, task_id, *self);
                    }
                }
                Ok(())
            },
        }
    }

    /// Finds the task `task_id` in column `column_index`.
    fn locate(&self, column_index: usize, task_id: usize) -> (r: Result<usize, BoardError>)
        ensures
            match r {
                Err(BoardError::ColumnIndexOutOfBounds) => column_index >= self.columns@.len(),
                Err(BoardError::TaskNotFound) => column_index < self.columns@.len() && !holds_id(
                    self.tasks_of(column_index as int),
                    task_id,
                ),
                Ok(i) => column_index < self.columns@.len() && first_at(
                    self.tasks_of(column_index as int),
                    task_id,
                    i as int,
                ),
            },
    {
        if column_index >= self.columns.len() {
            return Err(BoardError::ColumnIndexOutOfBounds);
        }
        match self.columns[column_index].position(task_id) {
            Some(i) => Ok(i),
            None => Err(BoardError::TaskNotFound),
        }
    }

    /// Replaces the title of the task `task_id` of column `column_index`.
    pub fn update_task_title(&mut self, column_index: usize, task_id: usize, new_title: &str) -> (r: Result<
        (),
        BoardError,
    >)
        ensures
            Board::task_op_post(
                *old(self),
                column_index,
                task_id,
                *final(self),
                r,
                |a: Task, b: Task| b.same_but_title(a) && b.title@ == new_title@,
            ),
            old(self).wf() ==> final(self).wf(),
    {
        match self.locate(column_index, task_id) {
            Err(e) => Err(e),
            Ok(i) => {
                self.columns[column_index].tasks[i].update_title(new_title);
                proof {
                    let ghost ci = column_index as int;
                    assert(first_at(old(self).tasks_of(ci), task_id, i as int));
                    assert(self.columns@[ci].name == old(self).columns@[ci].name);
                    assert(self.tasks_of(ci).len() == old(self).tasks_of(ci).len());
                    assert(Board::changes_one(*old(self), ci, i as int, *self));
                    if old(self).wf() {
                        lemma_changes_one_wf(*old(self), ci, i as int, *self);
                    }
                }
                Ok(())
            },
        }
    }

    /// Sets the description of the task `task_id` of column `column_index`;
    /// an empty text clears it.
    pub fn update_task_description(&mut self, column_index: usize, task_id: usize, description: &str) -> (r:
        Result<(), BoardError>)
        ensures
            Board::task_op_post(
                *old(self),
                column_index,
                task_id,
                *final(self),
                r,
                |a: Task, b: Task|
                    b.same_but_description(a) && (description@.len() == 0 ==> b.description is None) && (
                    description@.len() > 0 ==> crate::task::opt_view(b.description) == Some(description@)),
            ),
            old(self).wf() ==> final(self).wf(),
    {
        match self.locate(column_index, task_id) {
            Err(e) => Err(e),
            Ok(i) => {
                self.columns[column_index].tasks[i].set_description(description);
                proof {
                    let ghost ci = column_index as int;
                    assert(first_at(old(self).tasks_of(ci), task_id, i as int));
                    assert(self.columns@[ci].name == old(self).columns@[ci].name);
                    assert(self.tasks_of(ci).len() == old(self).tasks_of(ci).len());
                    assert(Board::changes_one(*old(self), ci, i as int, *self));
                    if old(self).wf() {
                        lemma_changes_one_wf(*old(self), ci, i as int, *self);
                    }
                }
                Ok(())
            },
        }
    }

    /// Moves the priority of the task `task_id` of column `column_index` one
    /// step along its cycle.
    pub fn cycle_task_priority(&mut self, column_index: usize, task_id: usize) -> (r: Result<(), BoardError>)
        ensures
            Board::task_op_post(
                *old(self),
                column_index,
                task_id,
                *final(self),
                r,
                |a: Task, b: Task| b.same_but_priority(a) && b.priority == a.priority.spec_next(),
            ),
            old(self).wf() ==> final(self).wf(),
    {
        match self.locate(column_index, task_id) {
            Err(e) => Err(e),
            Ok(i) => {
                self.columns[column_index].tasks[i].cycle_priority();
                proof {
                    let ghost ci = column_index as int;
                    assert(first_at(old(self).tasks_of(ci), task_id, i as int));
                    assert(self.columns@[ci].name == old(self).columns@[ci].name);
                    assert(self.tasks_of(ci).len() == old(self).tasks_of(ci).len());
                    assert(Board::changes_one(*old(self), ci, i as int, *self));
                    if old(self).wf() {
                        lemma_changes_one_wf(*old(self), ci, i as int, *self);
                    }
                }
                Ok(())
            },
        }
    }

    /// Adds a tag to the task `task_id` of column `column_index`.
    pub fn add_task_tag(&mut self, column_index: usize, task_id: usize, tag: &str) -> (r: Result<(), BoardError>)
        ensures
            Board::task_op_post(
                *old(self),
                column_index,
                task_id,
                *final(self),
                r,
                |a: Task, b: Task| Task::add_tag_post(a, tag@, b),
            ),
            old(self).wf() ==> final(self).wf(),
    {
        match self.locate(column_index, task_id) {
            Err(e) => Err(e),
            Ok(i) => {
                self.columns[column_index].tasks[i].add_tag(tag);
                proof {
                    let ghost ci = column_index as int;
                    assert(first_at(old(self).tasks_of(ci), task_id, i as int));
                    assert(self.columns@[ci].name == old(self).columns@[ci].name);
                    assert(self.tasks_of(ci).len() == old(self).tasks_of(ci).len());
                    assert(Board::changes_one(*old(self), ci, i as int, *self));
                    if old(self).wf() {
                        lemma_changes_one_wf(*old(self), ci, i as int, *self);
                    }
                }
                Ok(())
            },
        }
    }

    /// Sets or clears the due date of the task `task_id` of column `column_index`.
    pub fn set_task_due_date(&mut self, column_index: usize, task_id: usize, due_date: Option<String>) -> (r:
        Result<(), BoardError>)
        ensures
            Board::task_op_post(
                *old(self),
                column_index,
                task_id,
                *final(self),
                r,
                |a: Task, b: Task| b.same_but_due_date(a) && b.due_date == due_date,
            ),
            old(self).wf() ==> final(self).wf(),
    {
        match self.locate(column_index, task_id) {
            Err(e) => Err(e),
            Ok(i) => {
                self.columns[column_index].tasks[i].set_due_date(due_date);
                proof {
                    let ghost ci = column_index as int;
                    assert(first_at(old(self).tasks_of(ci), task_id, i as int));
                    assert(self.columns@[ci].name == old(self).columns@[ci].name);
                    assert(self.tasks_of(ci).len() == old(self).tasks_of(ci).len());
                    assert(Board::changes_one(*old(self), ci, i as int, *self));
                    if old(self).wf() {
                        lemma_changes_one_wf(*old(self), ci, i as int, *self);
                    }
                }
                Ok(())
            },
        }
    }

    /// Finds a task by id, looking through the columns from left to right;
    /// returns the first match with the index of its column.
    pub fn get_task(&self, task_id: usize) -> (r: Option<(&Task, usize)>)
        ensures
            match r {
                Some((t, c)) => {
                    &&& c < self.columns@.len()
                    &&& forall|k: int| 0 <= k < c ==> !holds_id(#[trigger] self.tasks_of(k), task_id)
                    &&& exists|i: int| first_at(self.tasks_of(c as int), task_id, i) && *t == self.tasks_of(c as int)[i]
                },
                None => !self.holds_task(task_id),
            },
    {
        let mut c: usize = 0;
        while c < self.columns.len()
            invariant
                0 <= c <= self.columns@.len(),
                forall|k: int| 0 <= k < c ==> !holds_id(#[trigger] self.tasks_of(k), task_id),
            decreases self.columns@.len() - c,
        {
            match self.columns[c].position(task_id) {
                Some(i) => {
                    proof {
                        assert(first_at(self.tasks_of(c as int), task_id, i as int));
                    }
                    return Some((&self.columns[c].tasks[i], c));
                },
                None => {},
            }
            c = c + 1;
        }
        None
    }
}

/// Changing one task without changing its id keeps the board well formed.
proof fn lemma_changes_one_wf(old: Board, c: int, i: int, new: Board)
    requires
        old.wf(),
        0 <= c < old.columns@.len(),
        0 <= i < old.tasks_of(c).len(),
        Board::changes_one(old, c, i, new),
        new.tasks_of(c)[i].id == old.tasks_of(c)[i].id,
    ensures
        new.wf(),
{
    assert forall|c1: int, i1: int|
        0 <= c1 < new.columns@.len() && 0 <= i1 < new.tasks_of(c1).len() implies (#[trigger] new.tasks_of(
            c1,
        )[i1]).id == old.tasks_of(c1)[i1].id && i1 < old.tasks_of(c1).len() by {
        if c1 != c {
            assert(new.columns@[c1] == old.columns@[c1]);
        }
    }
}

/// Where the task at place `k` of column `c` was before task `i` of column
/// `from` moved to the end of column `to`.
spec fn move_origin(old: Board, from: int, to: int, i: int, c: int, k: int) -> (int, int) {
    let last = if from == to {
        old.tasks_of(to).len() - 1
    } else {
        old.tasks_of(to).len() as int
    };
    if c == to && k == last {
        (from, i)
    } else if c == from {
        if k < i {
            (c, k)
        } else {
            (c, k + 1)
        }
    } else {
        (c, k)
    }
}

/// A move keeps the board well formed.
proof fn lemma_move_wf(old: Board, from: usize, to: usize, id: usize, new: Board)
    requires
        old.wf(),
        Board::move_post(old, from, to, id, new, Ok(())),
    ensures
        new.wf(),
{
    let f = from as int;
    let t = to as int;
    let i = choose|i: int|
        first_at(old.tasks_of(f), id, i) && if from == to {
            new.tasks_of(f) == old.tasks_of(f).remove(i).push(old.tasks_of(f)[i])
        } else {
            &&& new.tasks_of(f) == old.tasks_of(f).remove(i)
            &&& new.tasks_of(t) == old.tasks_of(t).push(old.tasks_of(f)[i])
        };
    let n = old.columns@.len();
    assert forall|c: int, k: int| 0 <= c < n && 0 <= k < new.tasks_of(c).len() implies {
        let o = #[trigger] move_origin(old, f, t, i, c, k);
        &&& 0 <= o.0 < n
        &&& 0 <= o.1 < old.tasks_of(o.0).len()
        &&& new.tasks_of(c)[k] == old.tasks_of(o.0)[o.1]
    } by {
        if c != f && c != t {
            assert(new.columns@[c] == old.columns@[c]);
        }
    }
    assert forall|c: int, i1: int|
        0 <= c < n && 0 <= i1 < new.tasks_of(c).len() implies (#[trigger] new.tasks_of(c)[i1]).id
        < new.next_id() by {
        let o = move_origin(old, f, t, i, c, i1);
        assert(old.tasks_of(o.0)[o.1].id < old.next_id());
    }
    assert forall|c1: int, i1: int, c2: int, i2: int|
        0 <= c1 < n && 0 <= i1 < new.tasks_of(c1).len() && 0 <= c2 < n && 0 <= i2 < new.tasks_of(
            c2,
        ).len() && (#[trigger] new.tasks_of(c1)[i1]).id == (#[trigger] new.tasks_of(c2)[i2]).id implies c1
        == c2 && i1 == i2 by {
        let o1 = move_origin(old, f, t, i, c1, i1);
        let o2 = move_origin(old, f, t, i, c2, i2);
        assert(old.tasks_of(o1.0)[o1.1].id == old.tasks_of(o2.0)[o2.1].id);
        assert(o1 == o2);
    }
}

/// Removing task `i` of column `c` keeps the board well formed.
pub proof fn lemma_remove_wf(old: Board, c: int, i: int, new: Board)
    requires
        old.wf(),
        0 <= c < old.columns@.len(),
        0 <= i < old.tasks_of(c).len(),
        new.next_id() == old.next_id(),
        new.columns@.len() == old.columns@.len(),
        forall|k: int| 0 <= k < old.columns@.len() && k != c ==> #[trigger] new.columns@[k] == old.columns@[k],
        new.tasks_of(c) == old.tasks_of(c).remove(i),
    ensures
        new.wf(),
{
    let n = old.columns@.len();
    assert forall|c1: int, k: int| 0 <= c1 < n && 0 <= k < new.tasks_of(c1).len() implies {
        let k0 = if c1 == c && k >= i {
            k + 1
        } else {
            k
        };
        &&& 0 <= k0 < old.tasks_of(c1).len()
        &&& #[trigger] new.tasks_of(c1)[k] == old.tasks_of(c1)[k0]
    } by {
        if c1 != c {
            assert(new.columns@[c1] == old.columns@[c1]);
        }
    }
}

/// Ids only grow: a task added after another, on a board whose next id has
/// not gone back since the first was added, gets a larger id.
pub proof fn lemma_add_ids_increase(
    b0: Board,
    c0: usize,
    t0: Seq<char>,
    b1: Board,
    r0: Result<usize, BoardError>,
    b2: Board,
    c2: usize,
    t2: Seq<char>,
    b3: Board,
    r2: Result<usize, BoardError>,
)
    requires
        Board::add_post(b0, c0, t0, b1, r0),
        r0 is Ok,
        b2.next_id() >= b1.next_id(),
        Board::add_post(b2, c2, t2, b3, r2),
        r2 is Ok,
    ensures
        r0->Ok_0 < r2->Ok_0,
        b3.next_id() > r2->Ok_0,
{
}

/// A move with a column index out of range fails with
/// `ColumnIndexOutOfBounds` and leaves the board as it was.
pub proof fn lemma_move_out_of_range(
    b0: Board,
    from: usize,
    to: usize,
    id: usize,
    b1: Board,
    r: Result<(), BoardError>,
)
    requires
        Board::move_post(b0, from, to, id, b1, r),
        from >= b0.columns@.len() || to >= b0.columns@.len(),
    ensures
        r == Err::<(), BoardError>(BoardError::ColumnIndexOutOfBounds),
        b1 == b0,
{
}

/// Moving a task from column `a` to column `b` and back puts it at the end
/// of column `a`, after the tasks that were there, and leaves column `b` as
/// it was.
pub proof fn lemma_move_there_and_back(
    b0: Board,
    a: usize,
    b: usize,
    id: usize,
    b1: Board,
    r1: Result<(), BoardError>,
    b2: Board,
    r2: Result<(), BoardError>,
)
    requires
        b0.wf(),
        a != b,
        Board::move_post(b0, a, b, id, b1, r1),
        r1 is Ok,
        Board::move_post(b1, b, a, id, b2, r2),
    ensures
        r2 is Ok,
        exists|i: int|
            first_at(b0.tasks_of(a as int), id, i) && b2.tasks_of(a as int) == b0.tasks_of(a as int).remove(
                i,
            ).push(b0.tasks_of(a as int)[i]),
        b2.tasks_of(b as int) == b0.tasks_of(b as int),
        !holds_id(b2.tasks_of(b as int), id),
{
    let ai = a as int;
    let bi = b as int;
    let i = choose|i: int|
        first_at(b0.tasks_of(ai), id, i) && b1.tasks_of(ai) == b0.tasks_of(ai).remove(i) && b1.tasks_of(bi)
            == b0.tasks_of(bi).push(b0.tasks_of(ai)[i]);
    let t = b0.tasks_of(ai)[i];
    let n = b0.tasks_of(bi).len() as int;
    assert forall|j: int| 0 <= j < n implies #[trigger] b0.tasks_of(bi)[j].id != id by {
        assert(b0.tasks_of(ai)[i].id == b0.tasks_of(bi)[j].id ==> ai == bi);
    }
    assert(b1.tasks_of(bi)[n] == t);
    assert(holds_id(b1.tasks_of(bi), id));
    assert(first_at(b1.tasks_of(bi), id, n)) by {
        assert forall|j: int| 0 <= j < n implies #[trigger] b1.tasks_of(bi)[j].id != id by {
            assert(b1.tasks_of(bi)[j] == b0.tasks_of(bi)[j]);
        }
    }
    let j = choose|j: int|
        first_at(b1.tasks_of(bi), id, j) && b2.tasks_of(bi) == b1.tasks_of(bi).remove(j) && b2.tasks_of(ai)
            == b1.tasks_of(ai).push(b1.tasks_of(bi)[j]);
    assert(j == n) by {
        if j < n {
            assert(b1.tasks_of(bi)[j] == b0.tasks_of(bi)[j]);
        }
    }
    assert(b2.tasks_of(bi) =~= b0.tasks_of(bi));
    assert(b2.tasks_of(ai) == b0.tasks_of(ai).remove(i).push(t));
}

} // verus!
