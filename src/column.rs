//! Columns: named, ordered lists of tasks.

use vstd::prelude::*;

use crate::task::Task;

verus! {

/// Some task of `tasks` has the id `id`.
pub open spec fn holds_id(tasks: Seq<Task>, id: usize) -> bool {
    exists|i: int| 0 <= i < tasks.len() && #[trigger] tasks[i].id == id
}

/// `i` is the first place of a task with id `id` in `tasks`.
pub open spec fn first_at(tasks: Seq<Task>, id: usize, i: int) -> bool {
    &&& 0 <= i < tasks.len()
    &&& tasks[i].id == id
    &&& forall|j: int| 0 <= j < i ==> #[trigger] tasks[j].id != id
}

/// A column of the board.
#[derive(Debug, Clone, PartialEq, Eq)]
pub struct Column {
    pub name: String,
    pub tasks: Vec<Task>,
}

impl Column {
    /// What `remove_task(id)` makes of `old`, returning `r`.
    pub open spec fn remove_post(old: Column, id: usize, new: Column, r: Option<Task>) -> bool {
        &&& new.name == old.name
        &&& match r {
            Some(t) => exists|i: int|
                first_at(old.tasks@, id, i) && t == old.tasks@[i] && new.tasks@
                    == old.tasks@.remove(i),
            None => !holds_id(old.tasks@, id) && new.tasks@ == old.tasks@,
        }
    }

    /// Creates an empty column with the given name.
    pub fn new(name: &str) -> (r: Column)
        ensures
            r.name@ == name@,
            r.tasks@.len() == 0,
    {
        Column { name: name.to_owned(), tasks: Vec::new() }
    }

    /// Appends a task to the column.
    pub fn add_task(&mut self, task: Task)
        ensures
            final(self).name == old(self).name,
            final(self).tasks@ == old(self).tasks@.push(task),
    {
        self.tasks.push(task);
    }

    /// The place of the first task with the given id, if any.
    pub fn position(&self, task_id: usize) -> (r: Option<usize>)
        ensures
            match r {
                Some(i) => first_at(self.tasks@, task_id, i as int),
                None => !holds_id(self.tasks@, task_id),
            },
    {
        let mut i: usize = 0;
        while i < self.tasks.len()
            invariant
                0 <= i <= self.tasks@.len(),
                forall|j: int| 0 <= j < i ==> #[trigger] self.tasks@[j].id != task_id,
            decreases self.tasks@.len() - i,
        {
            if self.tasks[i].id == task_id {
                return Some(i);
            }
            i = i + 1;
        }
        None
    }

    /// Removes the first task with the given id and returns it, if any;
    /// the other tasks keep their order.
    pub fn remove_task(&mut self, task_id: usize) -> (r: Option<Task>)
        ensures
            Column::remove_post(*old(self), task_id, *final(self), r),
    {
        match self.position(task_id) {
            Some(i) => {
                let t = self.tasks.remove(i);
                proof {
                    assert(first_at(old(self).tasks@, task_id, i as int));
                }
                Some(t)
            },
            None => None,
        }
    }
}

} // verus!
