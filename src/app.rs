//! The input-mode state machine: the open board, the selection, the text
//! being typed, and the board switcher.
//!
//! Operations that change the board return `true` when the board is to be
//! saved; the caller does the saving. Switching boards is split in steps
//! around the loading and saving that the caller performs.

use vstd::prelude::*;

use crate::board::Board;
use crate::column::first_at;
use crate::storage::{name_position, names};
use crate::task::Task;
use crate::text::{is_white_space, lemma_trim_of_empty, pop_char, push_char, trim, trim_of};

verus! {

/// How keystrokes are read.
#[derive(Debug, Clone, Copy, PartialEq, Eq, Structural)]
pub enum InputMode {
    Normal,
    Creating,
    Editing,
    Viewing,
    EditingDescription,
    AddingTag,
    SelectingBoard,
    CreatingBoard,
}

impl InputMode {
    /// The modes in which typed characters go to the input buffer.
    pub open spec fn takes_text(self) -> bool {
        ||| self == InputMode::Creating
        ||| self == InputMode::Editing
        ||| self == InputMode::EditingDescription
        ||| self == InputMode::AddingTag
        ||| self == InputMode::CreatingBoard
    }
}

/// The application state.
#[derive(Debug, Clone)]
pub struct App {
    pub board: Board,
    pub selected_column: usize,
    pub selected_task_index: Option<usize>,
    pub input_mode: InputMode,
    pub input_buffer: String,
    pub editing_task_id: Option<usize>,
    pub current_board_name: String,
    pub available_boards: Vec<String>,
    pub selected_board_index: Option<usize>,
}

impl App {
    /// The tasks of the selected column.
    pub open spec fn column_tasks(self) -> Seq<Task> {
        self.board.tasks_of(self.selected_column as int)
    }

    /// The selection is valid: the column exists (or there is none and the
    /// index is 0), a selected task exists in it, and a task is selected
    /// exactly when the column has tasks.
    pub open spec fn wf(self) -> bool {
        if self.board.columns@.len() == 0 {
            self.selected_column == 0 && self.selected_task_index is None
        } else {
            &&& self.selected_column < self.board.columns@.len()
            &&& self.selected_task_index matches Some(i) ==> i < self.column_tasks().len()
            &&& self.selected_task_index is None <==> self.column_tasks().len() == 0
        }
    }

    /// The selected task, when one is selected.
    pub open spec fn selected_task(self) -> Option<Task> {
        match self.selected_task_index {
            Some(i) => if self.board.columns@.len() > 0 && i < self.column_tasks().len() {
                Some(self.column_tasks()[i as int])
            } else {
                None
            },
            None => None,
        }
    }

    /// The selection that follows a change of column: the first task, or
    /// none in an empty column.
    pub open spec fn first_or_none(tasks: Seq<Task>) -> Option<usize> {
        if tasks.len() > 0 {
            Some(0usize)
        } else {
            None
        }
    }

    /// The task selection on a board just opened: the first task of the
    /// first column, or none when that column is empty or missing.
    pub open spec fn opening_selection(board: Board) -> Option<usize> {
        if board.columns@.len() > 0 {
            App::first_or_none(board.tasks_of(0))
        } else {
            None
        }
    }

    /// `target` is the board that the text `buffer` names: the text without
    /// surrounding white space, or none when the text is all white space.
    pub open spec fn names_board(buffer: Seq<char>, target: Option<String>) -> bool {
        match target {
            Some(name) => trim_of(buffer, name@) && name@.len() > 0,
            None => forall|k: int| 0 <= k < buffer.len() ==> is_white_space(#[trigger] buffer[k]),
        }
    }

    /// Opens the board `current_board_name`: the stored board when there is
    /// one, else a new board of that name. The first column is selected, with
    /// its first task when it has one; the known boards are this one alone
    /// until `refresh_boards` is told more.
    pub fn new(current_board_name: String, loaded: Option<Board>) -> (r: App)
        ensures
            r.wf(),
            r.current_board_name == current_board_name,
            match loaded {
                Some(b) => r.board == b,
                None => r.board.is_new_board(current_board_name@) && r.board.wf(),
            },
            r.selected_column == 0,
            r.selected_task_index == App::opening_selection(r.board),
            r.input_mode == InputMode::Normal,
            r.input_buffer@.len() == 0,
            r.editing_task_id is None,
            names(r.available_boards@) == seq![current_board_name@],
            r.selected_board_index is None,
    {
        let board = match loaded {
            Some(b) => b,
            None => Board::new(current_board_name.as_str()),
        };
        let mut available_boards: Vec<String> = Vec::new();
        available_boards.push(current_board_name.clone());
        let mut r = App {
            board,
            selected_column: 0,
            selected_task_index: None,
            input_mode: InputMode::Normal,
            input_buffer: String::new(),
            editing_task_id: None,
            current_board_name,
            available_boards,
            selected_board_index: None,
        };
        if r.board.columns.len() > 0 {
            r.update_task_selection();
        }
        assert(names(r.available_boards@) =~= seq![r.current_board_name@]);
        r
    }

    /// Takes the list of known boards, or, when it could not be read, the
    /// open board alone.
    pub fn refresh_boards(&mut self, listed: Option<Vec<String>>)
        ensures
            *final(self) == (App { available_boards: final(self).available_boards, ..*old(self) }),
            match listed {
                Some(v) => final(self).available_boards == v,
                None => names(final(self).available_boards@) == seq![old(self).current_board_name@],
            },
    {
        match listed {
            Some(v) => {
                self.available_boards = v;
            },
            None => {
                let mut v: Vec<String> = Vec::new();
                v.push(self.current_board_name.clone());
                self.available_boards = v;
                assert(names(self.available_boards@) =~= seq![old(self).current_board_name@]);
            },
        }
    }

    // Column and task navigation.

    /// Selects the next column, wrapping to the first, and its first task.
    pub fn next_column(&mut self)
        requires
            old(self).wf(),
        ensures
            final(self).wf(),
            old(self).board.columns@.len() == 0 ==> *final(self) == *old(self),
            old(self).board.columns@.len() > 0 ==> {
                &&& *final(self) == (App {
                    selected_column: final(self).selected_column,
                    selected_task_index: final(self).selected_task_index,
                    ..*old(self)
                })
                &&& final(self).selected_column == (old(self).selected_column + 1) % (old(self).board.columns@.len() as int)
                &&& final(self).selected_task_index == App::first_or_none(final(self).column_tasks())
            },
    {
        let n = self.board.columns.len();
        if n == 0 {
            return;
        }
        self.selected_column = (self.selected_column + 1) % n;
        self.update_task_selection();
    }

    /// Selects the previous column, wrapping to the last, and its first task.
    pub fn previous_column(&mut self)
        requires
            old(self).wf(),
        ensures
            final(self).wf(),
            old(self).board.columns@.len() == 0 ==> *final(self) == *old(self),
            old(self).board.columns@.len() > 0 ==> {
                &&& *final(self) == (App {
                    selected_column: final(self).selected_column,
                    selected_task_index: final(self).selected_task_index,
                    ..*old(self)
                })
                &&& final(self).selected_column == if old(self).selected_column > 0 {
                    old(self).selected_column - 1
                } else {
                    old(self).board.columns@.len() - 1
                }
                &&& final(self).selected_task_index == App::first_or_none(final(self).column_tasks())
            },
    {
        let n = self.board.columns.len();
        if n == 0 {
            return;
        }
        if self.selected_column > 0 {
            self.selected_column = self.selected_column - 1;
        } else {
            self.selected_column = n - 1;
        }
        self.update_task_selection();
    }

    /// Selects the first task of the selected column, or none when it is empty.
    pub fn update_task_selection(&mut self)
        requires
            old(self).selected_column < old(self).board.columns@.len(),
        ensures
            final(self).wf(),
            *final(self) == (App { selected_task_index: final(self).selected_task_index, ..*old(self) }),
            final(self).selected_task_index == App::first_or_none(old(self).column_tasks()),
    {
        let task_count = self.board.columns[self.selected_column].tasks.len();
        self.selected_task_index = if task_count > 0 {
            Some(0)
        } else {
            None
        };
    }

    /// Selects the next task of the column, wrapping to the first; nothing
    /// happens in an empty column.
    pub fn next_task(&mut self)
        requires
            old(self).wf(),
        ensures
            final(self).wf(),
            *final(self) == (App { selected_task_index: final(self).selected_task_index, ..*old(self) }),
            old(self).board.columns@.len() == 0 || old(self).column_tasks().len() == 0
                ==> final(self).selected_task_index == old(self).selected_task_index,
            old(self).board.columns@.len() > 0 && old(self).column_tasks().len() > 0
                ==> final(self).selected_task_index == Some(
                match old(self).selected_task_index {
                    Some(i) => ((i + 1) % (old(self).column_tasks().len() as int)) as usize,
                    None => 0usize,
                },
            ),
    {
        if self.board.columns.len() == 0 {
            return;
        }
        let task_count = self.board.columns[self.selected_column].tasks.len();
        if task_count == 0 {
            return;
        }
        self.selected_task_index = Some(
            match self.selected_task_index {
                Some(idx) => (idx + 1) % task_count,
                None => 0,
            },
        );
    }

    /// Selects the previous task of the column, wrapping to the last;
    /// nothing happens in an empty column.
    pub fn previous_task(&mut self)
        requires
            old(self).wf(),
        ensures
            final(self).wf(),
            *final(self) == (App { selected_task_index: final(self).selected_task_index, ..*old(self) }),
            old(self).board.columns@.len() == 0 || old(self).column_tasks().len() == 0
                ==> final(self).selected_task_index == old(self).selected_task_index,
            old(self).board.columns@.len() > 0 && old(self).column_tasks().len() > 0
                ==> final(self).selected_task_index == Some(
                match old(self).selected_task_index {
                    Some(i) => if i > 0 {
                        (i - 1) as usize
                    } else {
                        (old(self).column_tasks().len() - 1) as usize
                    },
                    None => 0usize,
                },
            ),
    {
        if self.board.columns.len() == 0 {
            return;
        }
        let task_count = self.board.columns[self.selected_column].tasks.len();
        if task_count == 0 {
            return;
        }
        self.selected_task_index = Some(
            match self.selected_task_index {
                Some(idx) => if idx > 0 {
                    idx - 1
                } else {
                    task_count - 1
                },
                None => 0,
            },
        );
    }

    // Text entry.

    /// Adds a typed character to the input buffer, in the modes that take text.
    pub fn handle_char_input(&mut self, c: char)
        ensures
            *final(self) == (App { input_buffer: final(self).input_buffer, ..*old(self) }),
            old(self).input_mode.takes_text() ==> final(self).input_buffer@ == old(self).input_buffer@.push(c),
            !old(self).input_mode.takes_text() ==> final(self).input_buffer == old(self).input_buffer,
    {
        if self.input_mode == InputMode::Creating || self.input_mode == InputMode::Editing || self.input_mode
            == InputMode::EditingDescription || self.input_mode == InputMode::AddingTag || self.input_mode
            == InputMode::CreatingBoard {
            push_char(&mut self.input_buffer, c);
        }
    }

    /// Removes the last character of the input buffer, in the modes that take text.
    pub fn handle_backspace(&mut self)
        ensures
            *final(self) == (App { input_buffer: final(self).input_buffer, ..*old(self) }),
            old(self).input_mode.takes_text() && old(self).input_buffer@.len() > 0
                ==> final(self).input_buffer@ == old(self).input_buffer@.drop_last(),
            !old(self).input_mode.takes_text() || old(self).input_buffer@.len() == 0
                ==> final(self).input_buffer@ == old(self).input_buffer@,
            !old(self).input_mode.takes_text() ==> final(self).input_buffer == old(self).input_buffer,
    {
        if self.input_mode == InputMode::Creating || self.input_mode == InputMode::Editing || self.input_mode
            == InputMode::EditingDescription || self.input_mode == InputMode::AddingTag || self.input_mode
            == InputMode::CreatingBoard {
            pop_char(&mut self.input_buffer);
        }
    }
    // Creating, editing and viewing tasks.

    /// Enters `Creating` with an empty buffer.
    pub fn start_creating(&mut self)
        ensures
            *final(self) == (App {
                input_mode: InputMode::Creating,
                input_buffer: final(self).input_buffer,
                ..*old(self)
            }),
            final(self).input_buffer@.len() == 0,
    {
        self.input_mode = InputMode::Creating;
        self.input_buffer = String::new();
    }

    /// Leaves `Creating`: a non-empty buffer becomes a new task at the end of
    /// the selected column, which is then selected. Returns whether the
    /// board changed.
    pub fn create_task(&mut self) -> (changed: bool)
        requires
            old(self).wf(),
        ensures
            old(self).board.wf() ==> final(self).board.wf(),
            final(self).wf(),
            final(self).input_mode == InputMode::Normal,
            changed <==> old(self).input_buffer@.len() > 0 && old(self).board.columns@.len() > 0
                && old(self).board.next_id() < usize::MAX,
            changed ==> {
                &&& *final(self) == (App {
                    board: final(self).board,
                    selected_task_index: final(self).selected_task_index,
                    input_mode: InputMode::Normal,
                    input_buffer: final(self).input_buffer,
                    ..*old(self)
                })
                &&& Board::add_post(
                    old(self).board,
                    old(self).selected_column,
                    old(self).input_buffer@,
                    final(self).board,
                    Ok(old(self).board.next_task_id),
                )
                &&& final(self).selected_task_index == Some((final(self).column_tasks().len() - 1) as usize)
                &&& final(self).input_buffer@.len() == 0
            },
            !changed ==> *final(self) == (App { input_mode: InputMode::Normal, ..*old(self) }),
    {
        if self.input_buffer.as_str().is_empty() || self.board.columns.len() == 0 || self.board.next_task_id
            == usize::MAX {
            self.input_mode = InputMode::Normal;
            return false;
        }
        let sc = self.selected_column;
        let r = self.board.add_task(sc, self.input_buffer.as_str());
        self.input_buffer = String::new();
        let task_count = self.board.columns[sc].tasks.len();
        self.selected_task_index = Some(task_count - 1);
        self.input_mode = InputMode::Normal;
        true
    }

    /// Leaves `Creating` without adding anything.
    pub fn cancel_creating(&mut self)
        ensures
            *final(self) == (App {
                input_mode: InputMode::Normal,
                input_buffer: final(self).input_buffer,
                ..*old(self)
            }),
            final(self).input_buffer@.len() == 0,
    {
        self.input_mode = InputMode::Normal;
        self.input_buffer = String::new();
    }

    /// Enters `Editing` for the selected task, with its title in the buffer;
    /// nothing happens when no task is selected.
    pub fn start_editing(&mut self)
        requires
            old(self).wf(),
        ensures
            match old(self).selected_task() {
                Some(t) => {
                    &&& *final(self) == (App {
                        input_mode: InputMode::Editing,
                        input_buffer: final(self).input_buffer,
                        editing_task_id: Some(t.id),
                        ..*old(self)
                    })
                    &&& final(self).input_buffer == t.title
                },
                None => *final(self) == *old(self),
            },
    {
        if let Some(task_idx) = self.selected_task_index {
            if task_idx < self.board.columns[self.selected_column].tasks.len() {
                let id = self.board.columns[self.selected_column].tasks[task_idx].id;
                let title = self.board.columns[self.selected_column].tasks[task_idx].title.clone();
                self.editing_task_id = Some(id);
                self.input_buffer = title;
                self.input_mode = InputMode::Editing;
            }
        }
    }

    /// Leaves `Editing`: a non-empty buffer becomes the title of the task
    /// being edited, in the selected column. Returns whether the board is
    /// to be saved.
    pub fn save_edit(&mut self) -> (changed: bool)
        requires
            old(self).wf(),
        ensures
            old(self).board.wf() ==> final(self).board.wf(),
            final(self).wf(),
            final(self).input_mode == InputMode::Normal,
            final(self).input_buffer@.len() == 0,
            final(self).editing_task_id is None,
            changed <==> old(self).editing_task_id is Some && old(self).input_buffer@.len() > 0,
            *final(self) == (App {
                board: final(self).board,
                input_mode: InputMode::Normal,
                input_buffer: final(self).input_buffer,
                editing_task_id: None,
                ..*old(self)
            }),
            changed ==> Board::task_op_any(
                    old(self).board,
                    old(self).selected_column,
                    old(self).editing_task_id->Some_0,
                    final(self).board,
                    |a: Task, b: Task| b.same_but_title(a) && b.title@ == old(self).input_buffer@,
                ),
            !changed ==> final(self).board == old(self).board,
    {
        let mut changed = false;
        if let Some(task_id) = self.editing_task_id {
            if !self.input_buffer.as_str().is_empty() {
                let r = self.board.update_task_title(self.selected_column, task_id, self.input_buffer.as_str());
                changed = true;
            }
        }
        self.input_mode = InputMode::Normal;
        self.input_buffer = String::new();
        self.editing_task_id = None;
        changed
    }

    /// Leaves `Editing` without changing the title.
    pub fn cancel_editing(&mut self)
        ensures
            *final(self) == (App {
                input_mode: InputMode::Normal,
                input_buffer: final(self).input_buffer,
                editing_task_id: None,
                ..*old(self)
            }),
            final(self).input_buffer@.len() == 0,
    {
        self.input_mode = InputMode::Normal;
        self.input_buffer = String::new();
        self.editing_task_id = None;
    }

    /// Enters `Viewing` when a task is selected.
    pub fn start_viewing(&mut self)
        ensures
            old(self).selected_task_index is Some ==> *final(self) == (App {
                input_mode: InputMode::Viewing,
                ..*old(self)
            }),
            old(self).selected_task_index is None ==> *final(self) == *old(self),
    {
        if self.selected_task_index.is_some() {
            self.input_mode = InputMode::Viewing;
        }
    }

    /// Leaves `Viewing`.
    pub fn stop_viewing(&mut self)
        ensures
            *final(self) == (App { input_mode: InputMode::Normal, ..*old(self) }),
    {
        self.input_mode = InputMode::Normal;
    }

    /// Moves the priority of the selected task one step along its cycle.
    /// Returns whether the board is to be saved.
    pub fn cycle_priority(&mut self) -> (changed: bool)
        requires
            old(self).wf(),
        ensures
            old(self).board.wf() ==> final(self).board.wf(),
            final(self).wf(),
            changed <==> old(self).selected_task() is Some,
            *final(self) == (App { board: final(self).board, ..*old(self) }),
            changed ==> Board::task_op_post(
                old(self).board,
                old(self).selected_column,
                old(self).selected_task()->Some_0.id,
                final(self).board,
                Ok(()),
                |a: Task, b: Task| b.same_but_priority(a) && b.priority == a.priority.spec_next(),
            ),
            !changed ==> final(self).board == old(self).board,
    {
        if let Some(task_idx) = self.selected_task_index {
            let sc = self.selected_column;
            if task_idx < self.board.columns[sc].tasks.len() {
                let task_id = self.board.columns[sc].tasks[task_idx].id;
                let r = self.board.cycle_task_priority(sc, task_id);
                proof {
                    assert(old(self).board.tasks_of(sc as int)[task_idx as int].id == task_id);
                }
                return true;
            }
        }
        false
    }

    /// Enters `EditingDescription` for the selected task, with its
    /// description (or nothing) in the buffer.
    pub fn start_editing_description(&mut self)
        requires
            old(self).wf(),
        ensures
            match old(self).selected_task() {
                Some(t) => {
                    &&& *final(self) == (App {
                        input_mode: InputMode::EditingDescription,
                        input_buffer: final(self).input_buffer,
                        editing_task_id: Some(t.id),
                        ..*old(self)
                    })
                    &&& match t.description {
                        Some(d) => final(self).input_buffer == d,
                        None => final(self).input_buffer@.len() == 0,
                    }
                },
                None => *final(self) == *old(self),
            },
    {
        if let Some(task_idx) = self.selected_task_index {
            if task_idx < self.board.columns[self.selected_column].tasks.len() {
                let id = self.board.columns[self.selected_column].tasks[task_idx].id;
                let buffer = match &self.board.columns[self.selected_column].tasks[task_idx].description {
                    Some(d) => d.clone(),
                    None => String::new(),
                };
                self.editing_task_id = Some(id);
                self.input_buffer = buffer;
                self.input_mode = InputMode::EditingDescription;
            }
        }
    }

    /// Leaves `EditingDescription`: the buffer, even empty, becomes the
    /// description of the task being edited. Returns whether the board is
    /// to be saved.
    pub fn save_description(&mut self) -> (changed: bool)
        requires
            old(self).wf(),
        ensures
            old(self).board.wf() ==> final(self).board.wf(),
            final(self).wf(),
            final(self).input_buffer@.len() == 0,
            changed <==> old(self).editing_task_id is Some,
            *final(self) == (App {
                board: final(self).board,
                input_mode: InputMode::Normal,
                input_buffer: final(self).input_buffer,
                editing_task_id: None,
                ..*old(self)
            }),
            changed ==> Board::task_op_any(
                    old(self).board,
                    old(self).selected_column,
                    old(self).editing_task_id->Some_0,
                    final(self).board,
                    |a: Task, b: Task|
                        b.same_but_description(a) && (old(self).input_buffer@.len() == 0 ==> b.description is None)
                            && (old(self).input_buffer@.len() > 0 ==> crate::task::opt_view(b.description)
                            == Some(old(self).input_buffer@)),
                ),
            !changed ==> final(self).board == old(self).board,
    {
        let mut changed = false;
        if let Some(task_id) = self.editing_task_id {
            let r = self.board.update_task_description(
                self.selected_column,
                task_id,
                self.input_buffer.as_str(),
            );
            changed = true;
        }
        self.input_mode = InputMode::Normal;
        self.input_buffer = String::new();
        self.editing_task_id = None;
        changed
    }

    /// Leaves `EditingDescription` without changing the description.
    pub fn cancel_editing_description(&mut self)
        ensures
            *final(self) == (App {
                input_mode: InputMode::Normal,
                input_buffer: final(self).input_buffer,
                editing_task_id: None,
                ..*old(self)
            }),
            final(self).input_buffer@.len() == 0,
    {
        self.input_mode = InputMode::Normal;
        self.input_buffer = String::new();
        self.editing_task_id = None;
    }

    /// Enters `AddingTag` with an empty buffer when a task is selected.
    pub fn start_adding_tag(&mut self)
        ensures
            old(self).selected_task_index is Some ==> {
                &&& *final(self) == (App {
                    input_mode: InputMode::AddingTag,
                    input_buffer: final(self).input_buffer,
                    ..*old(self)
                })
                &&& final(self).input_buffer@.len() == 0
            },
            old(self).selected_task_index is None ==> *final(self) == *old(self),
    {
        if self.selected_task_index.is_some() {
            self.input_mode = InputMode::AddingTag;
            self.input_buffer = String::new();
        }
    }

    /// Leaves `AddingTag`: a non-empty buffer is added as a tag of the
    /// selected task. Returns whether the board is to be saved.
    pub fn add_tag(&mut self) -> (changed: bool)
        requires
            old(self).wf(),
        ensures
            old(self).board.wf() ==> final(self).board.wf(),
            final(self).wf(),
            final(self).input_buffer@.len() == 0,
            changed <==> old(self).selected_task() is Some && old(self).input_buffer@.len() > 0,
            *final(self) == (App {
                board: final(self).board,
                input_mode: InputMode::Normal,
                input_buffer: final(self).input_buffer,
                ..*old(self)
            }),
            changed ==> Board::task_op_post(
                old(self).board,
                old(self).selected_column,
                old(self).selected_task()->Some_0.id,
                final(self).board,
                Ok(()),
                |a: Task, b: Task| Task::add_tag_post(a, old(self).input_buffer@, b),
            ),
            !changed ==> final(self).board == old(self).board,
    {
        let mut changed = false;
        if let Some(task_idx) = self.selected_task_index {
            let sc = self.selected_column;
            if !self.input_buffer.as_str().is_empty() && task_idx < self.board.columns[sc].tasks.len() {
                let task_id = self.board.columns[sc].tasks[task_idx].id;
                let r = self.board.add_task_tag(sc, task_id, self.input_buffer.as_str());
                proof {
                    assert(old(self).board.tasks_of(sc as int)[task_idx as int].id == task_id);
                }
                changed = true;
            }
        }
        self.input_mode = InputMode::Normal;
        self.input_buffer = String::new();
        changed
    }

    /// Leaves `AddingTag` without adding anything.
    pub fn cancel_adding_tag(&mut self)
        ensures
            *final(self) == (App {
                input_mode: InputMode::Normal,
                input_buffer: final(self).input_buffer,
                ..*old(self)
            }),
            final(self).input_buffer@.len() == 0,
    {
        self.input_mode = InputMode::Normal;
        self.input_buffer = String::new();
    }
    // Deleting and moving tasks.

    /// Deletes the selected task. The selection stays at the same place,
    /// which now holds the following task; it moves to the new last task
    /// when the last one was deleted, and is cleared when the column empties.
    /// Returns whether the board is to be saved.
    pub fn delete_selected_task(&mut self) -> (changed: bool)
        requires
            old(self).wf(),
        ensures
            old(self).board.wf() ==> final(self).board.wf(),
            final(self).wf(),
            changed <==> old(self).selected_task() is Some,
            !changed ==> *final(self) == *old(self),
            changed ==> {
                let sc = old(self).selected_column as int;
                let idx = old(self).selected_task_index->Some_0;
                let id = old(self).selected_task()->Some_0.id;
                let n = final(self).column_tasks().len();
                &&& *final(self) == (App {
                    board: final(self).board,
                    selected_task_index: final(self).selected_task_index,
                    ..*old(self)
                })
                &&& final(self).board.name == old(self).board.name
                &&& final(self).board.next_task_id == old(self).board.next_task_id
                &&& final(self).board.columns@.len() == old(self).board.columns@.len()
                &&& forall|k: int|
                    0 <= k < old(self).board.columns@.len() && k != sc ==> #[trigger] final(self).board.columns@[k]
                        == old(self).board.columns@[k]
                &&& final(self).board.columns@[sc].name == old(self).board.columns@[sc].name
                &&& exists|i: int|
                    first_at(old(self).column_tasks(), id, i) && final(self).column_tasks()
                        == old(self).column_tasks().remove(i)
                &&& final(self).selected_task_index == if n == 0 {
                    None
                } else if idx >= n {
                    Some((n - 1) as usize)
                } else {
                    Some(idx)
                }
            },
    {
        if let Some(task_idx) = self.selected_task_index {
            let sc = self.selected_column;
            if task_idx < self.board.columns[sc].tasks.len() {
                let task_id = self.board.columns[sc].tasks[task_idx].id;
                let removed = self.board.columns[sc].remove_task(task_id);
                proof {
                    assert(old(self).board.tasks_of(sc as int)[task_idx as int].id == task_id);
                    if old(self).board.wf() {
                        let i = choose|i: int|
                            first_at(old(self).board.tasks_of(sc as int), task_id, i) && self.board.tasks_of(
                                sc as int,
                            ) == old(self).board.tasks_of(sc as int).remove(i);
                        crate::board::lemma_remove_wf(old(self).board, sc as int, i, self.board);
                    }
                }
                let new_task_count = self.board.columns[sc].tasks.len();
                if new_task_count == 0 {
                    self.selected_task_index = None;
                } else if task_idx >= new_task_count {
                    self.selected_task_index = Some(new_task_count - 1);
                }
                return true;
            }
        }
        false
    }

    /// Moves the selected task to the end of the column `to`, which becomes
    /// the selected column, and selects the task there.
    fn move_selected_to(&mut self, to: usize) -> (changed: bool)
        requires
            old(self).wf(),
            to < old(self).board.columns@.len(),
        ensures
            old(self).board.wf() ==> final(self).board.wf(),
            final(self).wf(),
            changed <==> old(self).selected_task() is Some,
            !changed ==> *final(self) == *old(self),
            changed ==> {
                let id = old(self).selected_task()->Some_0.id;
                &&& *final(self) == (App {
                    board: final(self).board,
                    selected_column: to,
                    selected_task_index: final(self).selected_task_index,
                    ..*old(self)
                })
                &&& Board::move_post(old(self).board, old(self).selected_column, to, id, final(self).board, Ok(()))
                &&& final(self).selected_task_index matches Some(i) && first_at(final(self).column_tasks(), id, i as int)
            },
    {
        if let Some(task_idx) = self.selected_task_index {
            let from = self.selected_column;
            if task_idx < self.board.columns[from].tasks.len() {
                let task_id = self.board.columns[from].tasks[task_idx].id;
                proof {
                    assert(old(self).board.tasks_of(from as int)[task_idx as int].id == task_id);
                }
                let r = self.board.move_task(from, to, task_id);
                if r.is_ok() {
                    self.selected_column = to;
                    let ghost moved_to = self.board.tasks_of(to as int);
                    proof {
                        let last = moved_to.len() - 1;
                        assert(moved_to[last].id == task_id);
                    }
                    self.selected_task_index = self.board.columns[to].position(task_id);
                    return true;
                }
            }
        }
        false
    }

    /// Moves the selected task to the end of the column on its left, which
    /// becomes the selected column; nothing happens in the first column.
    /// Returns whether the board is to be saved.
    pub fn move_task_left(&mut self) -> (changed: bool)
        requires
            old(self).wf(),
        ensures
            old(self).board.wf() ==> final(self).board.wf(),
            final(self).wf(),
            changed <==> old(self).selected_column > 0 && old(self).selected_task() is Some,
            !changed ==> *final(self) == *old(self),
            changed ==> {
                let id = old(self).selected_task()->Some_0.id;
                let to = (old(self).selected_column - 1) as usize;
                &&& *final(self) == (App {
                    board: final(self).board,
                    selected_column: to,
                    selected_task_index: final(self).selected_task_index,
                    ..*old(self)
                })
                &&& Board::move_post(old(self).board, old(self).selected_column, to, id, final(self).board, Ok(()))
                &&& final(self).selected_task_index matches Some(i) && first_at(final(self).column_tasks(), id, i as int)
            },
    {
        if self.selected_column == 0 {
            return false;
        }
        let to = self.selected_column - 1;
        self.move_selected_to(to)
    }

    /// Moves the selected task to the end of the column on its right, which
    /// becomes the selected column; nothing happens in the last column.
    /// Returns whether the board is to be saved.
    pub fn move_task_right(&mut self) -> (changed: bool)
        requires
            old(self).wf(),
        ensures
            old(self).board.wf() ==> final(self).board.wf(),
            final(self).wf(),
            changed <==> old(self).selected_column + 1 < old(self).board.columns@.len() && old(self).selected_task() is Some,
            !changed ==> *final(self) == *old(self),
            changed ==> {
                let id = old(self).selected_task()->Some_0.id;
                let to = (old(self).selected_column + 1) as usize;
                &&& *final(self) == (App {
                    board: final(self).board,
                    selected_column: to,
                    selected_task_index: final(self).selected_task_index,
                    ..*old(self)
                })
                &&& Board::move_post(old(self).board, old(self).selected_column, to, id, final(self).board, Ok(()))
                &&& final(self).selected_task_index matches Some(i) && first_at(final(self).column_tasks(), id, i as int)
            },
    {
        if self.board.columns.len() == 0 || self.selected_column >= self.board.columns.len() - 1 {
            return false;
        }
        let to = self.selected_column + 1;
        self.move_selected_to(to)
    }

    // The board switcher.

    /// The board selection, when there is one, is a place in the list.
    pub open spec fn board_selection_ok(self) -> bool {
        self.selected_board_index matches Some(i) ==> i < self.available_boards@.len()
    }

    /// Enters `SelectingBoard`, with the open board selected in the list
    /// (none when it is not listed).
    pub fn start_board_selection(&mut self)
        ensures
            *final(self) == (App {
                input_mode: InputMode::SelectingBoard,
                selected_board_index: final(self).selected_board_index,
                ..*old(self)
            }),
            final(self).board_selection_ok(),
            match final(self).selected_board_index {
                Some(i) => old(self).available_boards@[i as int]@ == old(self).current_board_name@ && forall|j: int|
                    0 <= j < i ==> #[trigger] old(self).available_boards@[j]@ != old(self).current_board_name@,
                None => !names(old(self).available_boards@).contains(old(self).current_board_name@),
            },
    {
        self.input_mode = InputMode::SelectingBoard;
        self.selected_board_index = name_position(&self.available_boards, self.current_board_name.as_str());
    }

    /// Leaves `SelectingBoard` without switching.
    pub fn cancel_board_selection(&mut self)
        ensures
            *final(self) == (App {
                input_mode: InputMode::Normal,
                selected_board_index: None,
                ..*old(self)
            }),
    {
        self.input_mode = InputMode::Normal;
        self.selected_board_index = None;
    }

    /// Selects the next board of the list, wrapping to the first.
    pub fn next_board_in_list(&mut self)
        requires
            old(self).board_selection_ok(),
        ensures
            final(self).board_selection_ok(),
            *final(self) == (App { selected_board_index: final(self).selected_board_index, ..*old(self) }),
            old(self).available_boards@.len() == 0 ==> final(self).selected_board_index
                == old(self).selected_board_index,
            old(self).available_boards@.len() > 0 ==> final(self).selected_board_index == Some(
                match old(self).selected_board_index {
                    Some(i) => ((i + 1) % (old(self).available_boards@.len() as int)) as usize,
                    None => 0usize,
                },
            ),
    {
        let n = self.available_boards.len();
        if n == 0 {
            return;
        }
        self.selected_board_index = Some(
            match self.selected_board_index {
                Some(idx) => (idx + 1) % n,
                None => 0,
            },
        );
    }

    /// Selects the previous board of the list, wrapping to the last.
    pub fn previous_board_in_list(&mut self)
        requires
            old(self).board_selection_ok(),
        ensures
            final(self).board_selection_ok(),
            *final(self) == (App { selected_board_index: final(self).selected_board_index, ..*old(self) }),
            old(self).available_boards@.len() == 0 ==> final(self).selected_board_index
                == old(self).selected_board_index,
            old(self).available_boards@.len() > 0 ==> final(self).selected_board_index == Some(
                match old(self).selected_board_index {
                    Some(i) => if i > 0 {
                        (i - 1) as usize
                    } else {
                        (old(self).available_boards@.len() - 1) as usize
                    },
                    None => 0usize,
                },
            ),
    {
        let n = self.available_boards.len();
        if n == 0 {
            return;
        }
        self.selected_board_index = Some(
            match self.selected_board_index {
                Some(idx) => if idx > 0 {
                    idx - 1
                } else {
                    n - 1
                },
                None => 0,
            },
        );
    }

    /// The board that the input buffer names: the buffer without surrounding
    /// white space, unless that leaves nothing.
    pub fn board_to_open(&self) -> (r: Option<String>)
        ensures
            App::names_board(self.input_buffer@, r),
    {
        let name = trim(self.input_buffer.as_str());
        proof {
            lemma_trim_of_empty(self.input_buffer@, name@);
        }
        if name.as_str().is_empty() {
            None
        } else {
            Some(name)
        }
    }

    /// Leaves `SelectingBoard`, returning the name of the selected board to
    /// open, if one is selected; the name is also left in the input buffer.
    /// A selection past the end of the list selects nothing.
    pub fn switch_to_selected_board(&mut self) -> (target: Option<String>)
        ensures
            final(self).input_mode == InputMode::Normal,
            final(self).selected_board_index is None,
            match old(self).selected_board_index {
                Some(i) if i < old(self).available_boards@.len() => {
                    &&& *final(self) == (App {
                        input_mode: InputMode::Normal,
                        input_buffer: final(self).input_buffer,
                        selected_board_index: None,
                        ..*old(self)
                    })
                    &&& final(self).input_buffer == old(self).available_boards@[i as int]
                    &&& App::names_board(final(self).input_buffer@, target)
                },
                _ => {
                    &&& *final(self) == (App {
                        input_mode: InputMode::Normal,
                        selected_board_index: None,
                        ..*old(self)
                    })
                    &&& target is None
                },
            },
    {
        let mut target: Option<String> = None;
        if let Some(idx) = self.selected_board_index {
            if idx < self.available_boards.len() {
                self.input_buffer = self.available_boards[idx].clone();
                target = self.board_to_open();
            }
        }
        self.input_mode = InputMode::Normal;
        self.selected_board_index = None;
        target
    }

    /// Opens the board `board_name`: the stored board when there is one,
    /// else a new board of that name. The first column is selected, with its
    /// first task when it has one.
    pub fn switch_board(&mut self, board_name: String, loaded: Option<Board>)
        ensures
            final(self).wf(),
            *final(self) == (App {
                board: final(self).board,
                current_board_name: board_name,
                selected_column: 0,
                selected_task_index: App::opening_selection(final(self).board),
                ..*old(self)
            }),
            match loaded {
                Some(b) => final(self).board == b,
                None => final(self).board.is_new_board(board_name@) && final(self).board.wf(),
            },
    {
        let board = match loaded {
            Some(b) => b,
            None => Board::new(board_name.as_str()),
        };
        self.board = board;
        self.current_board_name = board_name;
        self.selected_column = 0;
        self.selected_task_index = None;
        if self.board.columns.len() > 0 {
            self.update_task_selection();
        }
    }

    /// Enters `CreatingBoard` with an empty buffer.
    pub fn start_creating_board(&mut self)
        ensures
            *final(self) == (App {
                input_mode: InputMode::CreatingBoard,
                input_buffer: final(self).input_buffer,
                ..*old(self)
            }),
            final(self).input_buffer@.len() == 0,
    {
        self.input_mode = InputMode::CreatingBoard;
        self.input_buffer = String::new();
    }

    /// Leaves `CreatingBoard`, returning the name of the board to create or
    /// open: the buffer without surrounding white space, unless that leaves
    /// nothing.
    pub fn create_new_board(&mut self) -> (target: Option<String>)
        ensures
            *final(self) == (App {
                input_mode: InputMode::Normal,
                input_buffer: final(self).input_buffer,
                ..*old(self)
            }),
            final(self).input_buffer@.len() == 0,
            App::names_board(old(self).input_buffer@, target),
    {
        let target = self.board_to_open();
        self.input_mode = InputMode::Normal;
        self.input_buffer = String::new();
        target
    }

    /// Leaves `CreatingBoard` without creating anything.
    pub fn cancel_creating_board(&mut self)
        ensures
            *final(self) == (App {
                input_mode: InputMode::Normal,
                input_buffer: final(self).input_buffer,
                ..*old(self)
            }),
            final(self).input_buffer@.len() == 0,
    {
        self.input_mode = InputMode::Normal;
        self.input_buffer = String::new();
    }

    /// The board to delete: the selected one of the list, unless it is the
    /// only board.
    pub fn delete_selected_board(&self) -> (r: Option<String>)
        ensures
            match self.selected_board_index {
                Some(i) if i < self.available_boards@.len() && self.available_boards@.len() > 1 => r == Some(
                    self.available_boards@[i as int],
                ),
                _ => r is None,
            },
    {
        if let Some(idx) = self.selected_board_index {
            if idx < self.available_boards.len() && self.available_boards.len() > 1 {
                return Some(self.available_boards[idx].clone());
            }
        }
        None
    }

    /// Takes note that the board `deleted` is gone: takes the list of known
    /// boards (or "default" alone when it could not be read), and keeps the
    /// board selection within it. When the open board was deleted, returns
    /// the first listed board, to be opened next.
    pub fn board_deleted(&mut self, deleted: &str, listed: Option<Vec<String>>) -> (next: Option<String>)
        ensures
            *final(self) == (App {
                available_boards: final(self).available_boards,
                selected_board_index: final(self).selected_board_index,
                ..*old(self)
            }),
            match listed {
                Some(v) => final(self).available_boards == v,
                None => names(final(self).available_boards@) == seq!["default"@],
            },
            final(self).selected_board_index == match old(self).selected_board_index {
                Some(i) => if i >= final(self).available_boards@.len() {
                    Some(
                        if final(self).available_boards@.len() > 0 {
                            (final(self).available_boards@.len() - 1) as usize
                        } else {
                            0usize
                        },
                    )
                } else {
                    Some(i)
                },
                None => None,
            },
            next == if deleted@ == old(self).current_board_name@ && final(self).available_boards@.len() > 0 {
                Some(final(self).available_boards@[0])
            } else {
                None::<String>
            },
    {
        match listed {
            Some(v) => {
                self.available_boards = v;
            },
            None => {
                let mut v: Vec<String> = Vec::new();
                v.push("default".to_owned());
                self.available_boards = v;
                assert(names(self.available_boards@) =~= seq!["default"@]);
            },
        }
        let n = self.available_boards.len();
        if let Some(idx) = self.selected_board_index {
            if idx >= n {
                self.selected_board_index = Some(
                    if n > 0 {
                        n - 1
                    } else {
                        0
                    },
                );
            }
        }
        let deleted_owned = deleted.to_owned();
        if deleted_owned == self.current_board_name && n > 0 {
            Some(self.available_boards[0].clone())
        } else {
            None
        }
    }
}

} // verus!
