//! Kanban boards: tasks, columns, boards, the board registry kept beside
//! them, and the input-mode state machine that drives them.

pub mod app;
pub mod board;
mod clock;
pub mod storage;
pub mod column;
pub mod task;
pub mod text;

pub use app::{App, InputMode};
pub use board::{Board, BoardError};
pub use column::Column;
pub use task::{Priority, Task};
