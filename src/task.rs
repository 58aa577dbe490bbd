//! Tasks and their priorities.

use vstd::prelude::*;

use crate::clock::current_timestamp;

verus! {

/// Priority level of a task, from highest to lowest.
#[derive(Debug, Clone, Copy, PartialEq, Eq, Structural, PartialOrd, Ord)]
pub enum Priority {
    High,
    Medium,
    Low,
    Unset,
}

impl Priority {
    /// The level that follows in the cycle Unset, Low, Medium, High, Unset.
    pub open spec fn spec_next(self) -> Priority {
        match self {
            Priority::Unset => Priority::Low,
            Priority::Low => Priority::Medium,
            Priority::Medium => Priority::High,
            Priority::High => Priority::Unset,
        }
    }

    /// The marker shown beside a task of this level.
    pub open spec fn spec_symbol(self) -> Seq<char> {
        match self {
            Priority::High => "!!"@,
            Priority::Medium => "!"@,
            Priority::Low => "·"@,
            Priority::Unset => ""@,
        }
    }

    /// The level's name.
    pub open spec fn spec_name(self) -> Seq<char> {
        match self {
            Priority::High => "High"@,
            Priority::Medium => "Medium"@,
            Priority::Low => "Low"@,
            Priority::Unset => "None"@,
        }
    }

    /// Gets the next priority level (cycles through all levels).
    pub fn next(&self) -> (r: Priority)
        ensures
            r == self.spec_next(),
    {
        match self {
            Priority::Unset => Priority::Low,
            Priority::Low => Priority::Medium,
            Priority::Medium => Priority::High,
            Priority::High => Priority::Unset,
        }
    }

    /// Gets a display symbol for the priority.
    pub fn symbol(&self) -> (r: &'static str)
        ensures
            r@ == self.spec_symbol(),
    {
        match self {
            Priority::High => "!!",
            Priority::Medium => "!",
            Priority::Low => "·",
            Priority::Unset => "",
        }
    }

    /// The level's name, as it is written in a board file.
    pub fn name(&self) -> (r: &'static str)
        ensures
            r@ == self.spec_name(),
    {
        match self {
            Priority::High => "High",
            Priority::Medium => "Medium",
            Priority::Low => "Low",
            Priority::Unset => "None",
        }
    }
}

impl Default for Priority {
    fn default() -> (r: Priority)
        ensures
            r == Priority::Unset,
    {
        Priority::Unset
    }
}

/// Four steps of the priority cycle lead back to where they started.
pub proof fn lemma_priority_cycle(p: Priority)
    ensures
        p.spec_next().spec_next().spec_next().spec_next() == p,
{
}

/// A single task of a board.
#[derive(Debug, Clone, PartialEq, Eq)]
pub struct Task {
    pub id: usize,
    pub title: String,
    pub description: Option<String>,
    pub priority: Priority,
    pub tags: Vec<String>,
    pub created_at: String,
    pub updated_at: String,
    pub due_date: Option<String>,
}

/// The view of an optional text.
pub open spec fn opt_view(o: Option<String>) -> Option<Seq<char>> {
    match o {
        Some(s) => Some(s@),
        None => None,
    }
}

impl Task {
    /// Some tag of the task reads `tag`.
    pub open spec fn has_tag(self, tag: Seq<char>) -> bool {
        exists|i: int| 0 <= i < self.tags@.len() && #[trigger] self.tags@[i]@ == tag
    }

    /// `i` is the first place of `tag` among the tags.
    pub open spec fn first_tag_at(self, tag: Seq<char>, i: int) -> bool {
        &&& 0 <= i < self.tags@.len()
        &&& self.tags@[i]@ == tag
        &&& forall|j: int| 0 <= j < i ==> #[trigger] self.tags@[j]@ != tag
    }

    /// A task as `new` makes it: the given id and title, and nothing else set.
    pub open spec fn is_fresh(self, id: usize, title: Seq<char>) -> bool {
        &&& self.id == id
        &&& self.title@ == title
        &&& self.description is None
        &&& self.priority == Priority::Unset
        &&& self.tags@.len() == 0
        &&& self.due_date is None
    }

    /// `self` and `other` agree on everything but the title and the update stamp.
    pub open spec fn same_but_title(self, other: Task) -> bool {
        self == (Task { title: self.title, updated_at: self.updated_at, ..other })
    }

    /// `self` and `other` agree on everything but the description and the update stamp.
    pub open spec fn same_but_description(self, other: Task) -> bool {
        self == (Task { description: self.description, updated_at: self.updated_at, ..other })
    }

    /// `self` and `other` agree on everything but the priority and the update stamp.
    pub open spec fn same_but_priority(self, other: Task) -> bool {
        self == (Task { priority: self.priority, updated_at: self.updated_at, ..other })
    }

    /// `self` and `other` agree on everything but the tags and the update stamp.
    pub open spec fn same_but_tags(self, other: Task) -> bool {
        self == (Task { tags: self.tags, updated_at: self.updated_at, ..other })
    }

    /// `self` and `other` agree on everything but the due date and the update stamp.
    pub open spec fn same_but_due_date(self, other: Task) -> bool {
        self == (Task { due_date: self.due_date, updated_at: self.updated_at, ..other })
    }

    /// What `add_tag(tag)` makes of `old`: the tag is appended when it is
    /// not empty and not there yet; otherwise nothing changes.
    pub open spec fn add_tag_post(old: Task, tag: Seq<char>, new: Task) -> bool {
        if tag.len() > 0 && !old.has_tag(tag) {
            &&& new.same_but_tags(old)
            &&& new.tags@.len() == old.tags@.len() + 1
            &&& new.tags@.drop_last() == old.tags@
            &&& new.tags@.last()@ == tag
        } else {
            new == old
        }
    }

    /// Creates a task with the given id and title: no description, priority
    /// `None`, no tags, no due date, and both stamps set to the current time.
    pub fn new(id: usize, title: &str) -> (r: Task)
        ensures
            r.is_fresh(id, title@),
    {
        Task {
            id,
            title: title.to_owned(),
            description: None,
            priority: Priority::Unset,
            tags: Vec::new(),
            created_at: current_timestamp(),
            updated_at: current_timestamp(),
            due_date: None,
        }
    }

    /// Creates a task with a title and a description.
    pub fn with_description(id: usize, title: &str, description: &str) -> (r: Task)
        ensures
            r.id == id,
            r.title@ == title@,
            opt_view(r.description) == Some(description@),
            r.priority == Priority::Unset,
            r.tags@.len() == 0,
            r.due_date is None,
    {
        Task {
            id,
            title: title.to_owned(),
            description: Some(description.to_owned()),
            priority: Priority::Unset,
            tags: Vec::new(),
            created_at: current_timestamp(),
            updated_at: current_timestamp(),
            due_date: None,
        }
    }

    /// What `restore` makes of the stored fields.
    pub open spec fn restored_from(
        r: Task,
        id: usize,
        title: String,
        description: Option<String>,
        priority: Option<Priority>,
        tags: Option<Vec<String>>,
        created_at: Option<String>,
        updated_at: Option<String>,
        due_date: Option<String>,
    ) -> bool {
        &&& r.id == id
        &&& r.title == title
        &&& r.description == description
        &&& r.priority == match priority {
            Some(p) => p,
            None => Priority::Unset,
        }
        &&& match tags {
            Some(t) => r.tags == t,
            None => r.tags@.len() == 0,
        }
        &&& created_at matches Some(c) ==> r.created_at == c
        &&& updated_at matches Some(u) ==> r.updated_at == u
        &&& r.due_date == due_date
    }

    /// Rebuilds a stored task. A field that the record lacks takes its
    /// default: priority `Unset`, no tags, the current time for a stamp.
    pub fn restore(
        id: usize,
        title: String,
        description: Option<String>,
        priority: Option<Priority>,
        tags: Option<Vec<String>>,
        created_at: Option<String>,
        updated_at: Option<String>,
        due_date: Option<String>,
    ) -> (r: Task)
        ensures
            Task::restored_from(r, id, title, description, priority, tags, created_at, updated_at, due_date),
    {
        let priority = match priority {
            Some(p) => p,
            None => Priority::Unset,
        };
        let tags = match tags {
            Some(t) => t,
            None => Vec::new(),
        };
        let created_at = match created_at {
            Some(c) => c,
            None => current_timestamp(),
        };
        let updated_at = match updated_at {
            Some(u) => u,
            None => current_timestamp(),
        };
        Task { id, title, description, priority, tags, created_at, updated_at, due_date }
    }

    /// Sets the description; an empty text clears it.
    pub fn set_description(&mut self, description: &str)
        ensures
            final(self).same_but_description(*old(self)),
            description@.len() == 0 ==> final(self).description is None,
            description@.len() > 0 ==> opt_view(final(self).description) == Some(description@),
    {
        if description.is_empty() {
            self.description = None;
        } else {
            self.description = Some(description.to_owned());
        }
        self.updated_at = current_timestamp();
    }

    /// Sets the priority.
    pub fn set_priority(&mut self, priority: Priority)
        ensures
            final(self).same_but_priority(*old(self)),
            final(self).priority == priority,
    {
        self.priority = priority;
        self.updated_at = current_timestamp();
    }

    /// Moves the priority one step along Unset, Low, Medium, High, Unset.
    pub fn cycle_priority(&mut self)
        ensures
            final(self).same_but_priority(*old(self)),
            final(self).priority == old(self).priority.spec_next(),
    {
        self.priority = self.priority.next();
        self.updated_at = current_timestamp();
    }

    /// Appends a tag unless it is empty or already there (exact match).
    pub fn add_tag(&mut self, tag: &str)
        ensures
            Task::add_tag_post(*old(self), tag@, *final(self)),
    {
        let wanted = tag.to_owned();
        let mut found = false;
        let mut i: usize = 0;
        while i < self.tags.len()
            invariant
                0 <= i <= self.tags@.len(),
                wanted@ == tag@,
                self == old(self),
                found <==> exists|j: int| 0 <= j < i && #[trigger] self.tags@[j]@ == tag@,
            decreases self.tags@.len() - i,
        {
            if self.tags[i] == wanted {
                found = true;
            }
            i = i + 1;
        }
        if !found && !tag.is_empty() {
            self.tags.push(wanted);
            self.updated_at = current_timestamp();
            proof {
                assert(self.tags@.drop_last() =~= old(self).tags@);
            }
        }
    }

    /// Removes the first tag that reads `tag`, if any.
    pub fn remove_tag(&mut self, tag: &str)
        ensures
            old(self).has_tag(tag@) ==> exists|i: int|
                old(self).first_tag_at(tag@, i) && final(self).same_but_tags(*old(self))
                    && final(self).tags@ == old(self).tags@.remove(i),
            !old(self).has_tag(tag@) ==> *final(self) == *old(self),
    {
        let wanted = tag.to_owned();
        let mut i: usize = 0;
        while i < self.tags.len()
            invariant
                0 <= i <= self.tags@.len(),
                wanted@ == tag@,
                self == old(self),
                forall|j: int| 0 <= j < i ==> #[trigger] self.tags@[j]@ != tag@,
            decreases self.tags@.len() - i,
        {
            if self.tags[i] == wanted {
                let ghost k = i as int;
                assert(old(self).first_tag_at(tag@, k));
                self.tags.remove(i);
                self.updated_at = current_timestamp();
                return;
            }
            i = i + 1;
        }
    }

    /// Sets or clears the due date.
    pub fn set_due_date(&mut self, due_date: Option<String>)
        ensures
            final(self).same_but_due_date(*old(self)),
            final(self).due_date == due_date,
    {
        self.due_date = due_date;
        self.updated_at = current_timestamp();
    }

    /// Replaces the title.
    pub fn update_title(&mut self, title: &str)
        ensures
            final(self).same_but_title(*old(self)),
            final(self).title@ == title@,
    {
        self.title = title.to_owned();
        self.updated_at = current_timestamp();
    }
}

/// Adding a tag a second time changes nothing, and a first tag added to a
/// task without tags leaves exactly one.
pub proof fn lemma_add_tag_twice(t0: Task, t1: Task, t2: Task, tag: Seq<char>)
    requires
        Task::add_tag_post(t0, tag, t1),
        Task::add_tag_post(t1, tag, t2),
    ensures
        t2 == t1,
        t0.tags@.len() == 0 && tag.len() > 0 ==> t2.tags@.len() == 1,
{
    if tag.len() > 0 && !t0.has_tag(tag) {
        let k = t1.tags@.len() - 1;
        assert(t1.tags@[k]@ == tag);
        assert(t1.has_tag(tag));
    }
}

/// A task rebuilt from all of its own stored fields is the same task.
pub proof fn lemma_restore_round_trip(t: Task, r: Task)
    requires
        Task::restored_from(
            r,
            t.id,
            t.title,
            t.description,
            Some(t.priority),
            Some(t.tags),
            Some(t.created_at),
            Some(t.updated_at),
            t.due_date,
        ),
    ensures
        r == t,
{
}

} // verus!
