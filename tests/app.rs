use kanban_tui::{App, Board, InputMode};

fn test_app() -> App {
    App::new("My Kanban Board".to_string(), None)
}

#[test]
fn test_app_initialization() {
    let app = test_app();
    assert_eq!(app.selected_column, 0);
    assert_eq!(app.selected_task_index, None);
    assert_eq!(app.input_mode, InputMode::Normal);
    assert_eq!(app.input_buffer, "");
    assert_eq!(app.board.columns.len(), 3);
}

#[test]
fn test_next_column_navigation() {
    let mut app = test_app();
    assert_eq!(app.selected_column, 0);
    app.next_column();
    assert_eq!(app.selected_column, 1);
    app.next_column();
    assert_eq!(app.selected_column, 2);
    app.next_column();
    assert_eq!(app.selected_column, 0);
}

#[test]
fn test_previous_column_navigation() {
    let mut app = test_app();
    assert_eq!(app.selected_column, 0);
    app.previous_column();
    assert_eq!(app.selected_column, 2);
    app.previous_column();
    assert_eq!(app.selected_column, 1);
    app.previous_column();
    assert_eq!(app.selected_column, 0);
}

#[test]
fn test_start_creating_task() {
    let mut app = test_app();
    app.input_buffer = "old text".to_string();
    app.start_creating();
    assert_eq!(app.input_mode, InputMode::Creating);
    assert_eq!(app.input_buffer, "");
}

#[test]
fn test_create_task_with_input() {
    let mut app = test_app();
    app.start_creating();
    app.input_buffer = "My new task".to_string();
    let initial_count = app.board.columns[0].tasks.len();
    app.create_task();
    assert_eq!(app.board.columns[0].tasks.len(), initial_count + 1);
    assert_eq!(app.board.columns[0].tasks[initial_count].title, "My new task");
    assert_eq!(app.input_mode, InputMode::Normal);
    assert_eq!(app.input_buffer, "");
}

#[test]
fn test_create_task_with_empty_input() {
    let mut app = test_app();
    app.start_creating();
    assert_eq!(app.input_buffer, "");
    let initial_count = app.board.columns[0].tasks.len();
    app.create_task();
    assert_eq!(app.board.columns[0].tasks.len(), initial_count);
    assert_eq!(app.input_mode, InputMode::Normal);
}

#[test]
fn test_create_task_in_different_columns() {
    let mut app = test_app();
    app.selected_column = 0;
    app.start_creating();
    app.input_buffer = "Task in column 0".to_string();
    app.create_task();
    assert_eq!(app.board.columns[0].tasks.len(), 1);
    app.selected_column = 1;
    app.start_creating();
    app.input_buffer = "Task in column 1".to_string();
    app.create_task();
    assert_eq!(app.board.columns[1].tasks.len(), 1);
    app.selected_column = 2;
    app.start_creating();
    app.input_buffer = "Task in column 2".to_string();
    app.create_task();
    assert_eq!(app.board.columns[2].tasks.len(), 1);
    assert_eq!(app.board.columns[0].tasks[0].title, "Task in column 0");
    assert_eq!(app.board.columns[1].tasks[0].title, "Task in column 1");
    assert_eq!(app.board.columns[2].tasks[0].title, "Task in column 2");
}

#[test]
fn test_cancel_creating() {
    let mut app = test_app();
    app.start_creating();
    app.input_buffer = "Some text".to_string();
    app.cancel_creating();
    assert_eq!(app.input_mode, InputMode::Normal);
    assert_eq!(app.input_buffer, "");
}

#[test]
fn test_handle_char_input_in_creating_mode() {
    let mut app = test_app();
    app.start_creating();
    app.handle_char_input('H');
    app.handle_char_input('e');
    app.handle_char_input('l');
    app.handle_char_input('l');
    app.handle_char_input('o');
    assert_eq!(app.input_buffer, "Hello");
}

#[test]
fn test_handle_char_input_in_normal_mode() {
    let mut app = test_app();
    assert_eq!(app.input_mode, InputMode::Normal);
    app.handle_char_input('H');
    app.handle_char_input('i');
    assert_eq!(app.input_buffer, "");
}

#[test]
fn test_handle_backspace_in_creating_mode() {
    let mut app = test_app();
    app.start_creating();
    app.input_buffer = "Hello World".to_string();
    app.handle_backspace();
    assert_eq!(app.input_buffer, "Hello Worl");
    app.handle_backspace();
    assert_eq!(app.input_buffer, "Hello Wor");
    for _ in 0..9 {
        app.handle_backspace();
    }
    assert_eq!(app.input_buffer, "");
    app.handle_backspace();
    assert_eq!(app.input_buffer, "");
}

#[test]
fn test_handle_backspace_in_normal_mode() {
    let mut app = test_app();
    app.input_buffer = "Test".to_string();
    assert_eq!(app.input_mode, InputMode::Normal);
    app.handle_backspace();
    assert_eq!(app.input_buffer, "Test");
}

#[test]
fn test_complete_task_creation_workflow() {
    let mut app = test_app();
    app.next_column();
    assert_eq!(app.selected_column, 1);
    app.start_creating();
    assert_eq!(app.input_mode, InputMode::Creating);
    for c in "Fix the bug".chars() {
        app.handle_char_input(c);
    }
    assert_eq!(app.input_buffer, "Fix the bug");
    app.create_task();
    assert_eq!(app.input_mode, InputMode::Normal);
    assert_eq!(app.board.columns[1].tasks.len(), 1);
    assert_eq!(app.board.columns[1].tasks[0].title, "Fix the bug");
}

#[test]
fn test_task_selection_auto_updates_on_column_change() {
    let mut app = test_app();
    app.board.add_task(0, "Task 1").unwrap();
    app.board.add_task(1, "Task 2").unwrap();
    assert_eq!(app.selected_column, 0);
    assert_eq!(app.selected_task_index, None);
    app.next_column();
    app.previous_column();
    assert_eq!(app.selected_task_index, Some(0));
    app.next_column();
    assert_eq!(app.selected_task_index, Some(0));
    app.next_column();
    assert_eq!(app.selected_task_index, None);
}

#[test]
fn test_next_task_navigation() {
    let mut app = test_app();
    app.board.add_task(0, "Task 1").unwrap();
    app.board.add_task(0, "Task 2").unwrap();
    app.board.add_task(0, "Task 3").unwrap();
    assert_eq!(app.selected_task_index, None);
    app.next_task();
    assert_eq!(app.selected_task_index, Some(0));
    app.next_task();
    assert_eq!(app.selected_task_index, Some(1));
    app.next_task();
    assert_eq!(app.selected_task_index, Some(2));
    app.next_task();
    assert_eq!(app.selected_task_index, Some(0));
}

#[test]
fn test_previous_task_navigation() {
    let mut app = test_app();
    app.board.add_task(0, "Task 1").unwrap();
    app.board.add_task(0, "Task 2").unwrap();
    app.board.add_task(0, "Task 3").unwrap();
    assert_eq!(app.selected_task_index, None);
    app.previous_task();
    assert_eq!(app.selected_task_index, Some(0));
    app.previous_task();
    assert_eq!(app.selected_task_index, Some(2));
    app.previous_task();
    assert_eq!(app.selected_task_index, Some(1));
    app.previous_task();
    assert_eq!(app.selected_task_index, Some(0));
}

#[test]
fn test_task_navigation_on_empty_column() {
    let mut app = test_app();
    assert_eq!(app.board.columns[0].tasks.len(), 0);
    app.next_task();
    assert_eq!(app.selected_task_index, None);
    app.previous_task();
    assert_eq!(app.selected_task_index, None);
}

#[test]
fn test_delete_selected_task() {
    let mut app = test_app();
    app.board.add_task(0, "Task 1").unwrap();
    app.board.add_task(0, "Task 2").unwrap();
    app.board.add_task(0, "Task 3").unwrap();
    app.selected_task_index = Some(0);
    app.delete_selected_task();
    assert_eq!(app.board.columns[0].tasks.len(), 2);
    assert_eq!(app.board.columns[0].tasks[0].title, "Task 2");
    assert_eq!(app.selected_task_index, Some(0));
}

#[test]
fn test_delete_last_task_in_list() {
    let mut app = test_app();
    app.board.add_task(0, "Task 1").unwrap();
    app.board.add_task(0, "Task 2").unwrap();
    app.board.add_task(0, "Task 3").unwrap();
    app.selected_task_index = Some(2);
    app.delete_selected_task();
    assert_eq!(app.board.columns[0].tasks.len(), 2);
    assert_eq!(app.selected_task_index, Some(1));
    assert_eq!(app.board.columns[0].tasks[1].title, "Task 2");
}

#[test]
fn test_delete_only_task() {
    let mut app = test_app();
    app.board.add_task(0, "Only task").unwrap();
    app.selected_task_index = Some(0);
    app.delete_selected_task();
    assert_eq!(app.board.columns[0].tasks.len(), 0);
    assert_eq!(app.selected_task_index, None);
}

#[test]
fn test_delete_with_no_selection() {
    let mut app = test_app();
    app.board.add_task(0, "Task 1").unwrap();
    assert_eq!(app.selected_task_index, None);
    app.delete_selected_task();
    assert_eq!(app.board.columns[0].tasks.len(), 1);
}

#[test]
fn test_delete_middle_task() {
    let mut app = test_app();
    app.board.add_task(0, "Task 1").unwrap();
    app.board.add_task(0, "Task 2").unwrap();
    app.board.add_task(0, "Task 3").unwrap();
    app.selected_task_index = Some(1);
    app.delete_selected_task();
    assert_eq!(app.board.columns[0].tasks.len(), 2);
    assert_eq!(app.board.columns[0].tasks[0].title, "Task 1");
    assert_eq!(app.board.columns[0].tasks[1].title, "Task 3");
    assert_eq!(app.selected_task_index, Some(1));
}

#[test]
fn test_create_task_selects_new_task() {
    let mut app = test_app();
    app.start_creating();
    app.input_buffer = "New task".to_string();
    app.create_task();
    assert_eq!(app.selected_task_index, Some(0));
    assert_eq!(app.board.columns[0].tasks[0].title, "New task");
    app.start_creating();
    app.input_buffer = "Another task".to_string();
    app.create_task();
    assert_eq!(app.selected_task_index, Some(1));
}

#[test]
fn test_complete_deletion_workflow() {
    let mut app = test_app();
    for i in 1..=3 {
        app.start_creating();
        app.input_buffer = format!("Task {}", i);
        app.create_task();
    }
    assert_eq!(app.board.columns[0].tasks.len(), 3);
    assert_eq!(app.selected_task_index, Some(2));
    app.previous_task();
    app.previous_task();
    assert_eq!(app.selected_task_index, Some(0));
    app.delete_selected_task();
    assert_eq!(app.board.columns[0].tasks.len(), 2);
    assert_eq!(app.board.columns[0].tasks[0].title, "Task 2");
    app.delete_selected_task();
    assert_eq!(app.board.columns[0].tasks.len(), 1);
    assert_eq!(app.board.columns[0].tasks[0].title, "Task 3");
    app.delete_selected_task();
    assert_eq!(app.board.columns[0].tasks.len(), 0);
    assert_eq!(app.selected_task_index, None);
}

#[test]
fn test_move_task_right() {
    let mut app = test_app();
    let task_id = app.board.add_task(0, "My task").unwrap();
    app.selected_column = 0;
    app.selected_task_index = Some(0);
    app.move_task_right();
    assert_eq!(app.board.columns[0].tasks.len(), 0);
    assert_eq!(app.board.columns[1].tasks.len(), 1);
    assert_eq!(app.board.columns[1].tasks[0].title, "My task");
    assert_eq!(app.board.columns[1].tasks[0].id, task_id);
    assert_eq!(app.selected_column, 1);
    assert_eq!(app.selected_task_index, Some(0));
}

#[test]
fn test_move_task_left() {
    let mut app = test_app();
    let task_id = app.board.add_task(1, "My task").unwrap();
    app.selected_column = 1;
    app.selected_task_index = Some(0);
    app.move_task_left();
    assert_eq!(app.board.columns[1].tasks.len(), 0);
    assert_eq!(app.board.columns[0].tasks.len(), 1);
    assert_eq!(app.board.columns[0].tasks[0].title, "My task");
    assert_eq!(app.board.columns[0].tasks[0].id, task_id);
    assert_eq!(app.selected_column, 0);
    assert_eq!(app.selected_task_index, Some(0));
}

#[test]
fn test_move_task_cannot_move_left_from_first_column() {
    let mut app = test_app();
    app.board.add_task(0, "Task").unwrap();
    app.selected_column = 0;
    app.selected_task_index = Some(0);
    app.move_task_left();
    assert_eq!(app.board.columns[0].tasks.len(), 1);
    assert_eq!(app.selected_column, 0);
}

#[test]
fn test_move_task_cannot_move_right_from_last_column() {
    let mut app = test_app();
    app.board.add_task(2, "Task").unwrap();
    app.selected_column = 2;
    app.selected_task_index = Some(0);
    app.move_task_right();
    assert_eq!(app.board.columns[2].tasks.len(), 1);
    assert_eq!(app.selected_column, 2);
}

#[test]
fn test_move_task_with_no_selection() {
    let mut app = test_app();
    app.board.add_task(0, "Task").unwrap();
    app.selected_column = 0;
    app.selected_task_index = None;
    app.move_task_right();
    assert_eq!(app.board.columns[0].tasks.len(), 1);
    assert_eq!(app.board.columns[1].tasks.len(), 0);
}

#[test]
fn test_move_task_through_all_columns() {
    let mut app = test_app();
    let task_id = app.board.add_task(0, "Traveling task").unwrap();
    app.selected_column = 0;
    app.selected_task_index = Some(0);
    app.move_task_right();
    assert_eq!(app.selected_column, 1);
    assert_eq!(app.board.columns[0].tasks.len(), 0);
    assert_eq!(app.board.columns[1].tasks.len(), 1);
    assert_eq!(app.board.columns[1].tasks[0].id, task_id);
    app.move_task_right();
    assert_eq!(app.selected_column, 2);
    assert_eq!(app.board.columns[1].tasks.len(), 0);
    assert_eq!(app.board.columns[2].tasks.len(), 1);
    assert_eq!(app.board.columns[2].tasks[0].id, task_id);
    app.move_task_left();
    assert_eq!(app.selected_column, 1);
    assert_eq!(app.board.columns[2].tasks.len(), 0);
    assert_eq!(app.board.columns[1].tasks.len(), 1);
    assert_eq!(app.board.columns[1].tasks[0].id, task_id);
    app.move_task_left();
    assert_eq!(app.selected_column, 0);
    assert_eq!(app.board.columns[1].tasks.len(), 0);
    assert_eq!(app.board.columns[0].tasks.len(), 1);
    assert_eq!(app.board.columns[0].tasks[0].id, task_id);
}

#[test]
fn test_move_task_to_column_with_existing_tasks() {
    let mut app = test_app();
    app.board.add_task(1, "Existing 1").unwrap();
    app.board.add_task(1, "Existing 2").unwrap();
    let task_id = app.board.add_task(0, "Moving task").unwrap();
    app.selected_column = 0;
    app.selected_task_index = Some(0);
    app.move_task_right();
    assert_eq!(app.board.columns[1].tasks.len(), 3);
    assert_eq!(app.board.columns[1].tasks[2].title, "Moving task");
    assert_eq!(app.board.columns[1].tasks[2].id, task_id);
    assert_eq!(app.selected_column, 1);
    assert_eq!(app.selected_task_index, Some(2));
}

#[test]
fn test_complete_kanban_workflow() {
    let mut app = test_app();
    app.selected_column = 0;
    app.start_creating();
    app.input_buffer = "Implement feature".to_string();
    app.create_task();
    assert_eq!(app.board.columns[0].tasks.len(), 1);
    assert_eq!(app.selected_task_index, Some(0));
    app.move_task_right();
    assert_eq!(app.selected_column, 1);
    assert_eq!(app.board.columns[0].tasks.len(), 0);
    assert_eq!(app.board.columns[1].tasks.len(), 1);
    assert_eq!(app.board.columns[1].tasks[0].title, "Implement feature");
    app.move_task_right();
    assert_eq!(app.selected_column, 2);
    assert_eq!(app.board.columns[1].tasks.len(), 0);
    assert_eq!(app.board.columns[2].tasks.len(), 1);
    assert_eq!(app.board.columns[2].tasks[0].title, "Implement feature");
}

#[test]
fn test_auto_save_on_create() {
    let mut app = test_app();
    app.start_creating();
    app.input_buffer = "Auto-saved task".to_string();
    assert!(app.create_task());
    assert_eq!(app.board.columns[0].tasks[0].title, "Auto-saved task");
}

#[test]
fn test_auto_save_on_delete() {
    let mut app = test_app();
    app.board.add_task(0, "To be deleted").unwrap();
    app.selected_task_index = Some(0);
    assert!(app.delete_selected_task());
    assert!(app.board.columns[0].tasks.is_empty());
    assert!(!app.delete_selected_task());
}

#[test]
fn test_auto_save_on_move() {
    let mut app = test_app();
    app.board.add_task(0, "Moving task").unwrap();
    app.selected_task_index = Some(0);
    assert!(app.move_task_right());
    assert_eq!(app.board.columns[1].tasks[0].title, "Moving task");
    app.selected_column = 2;
    app.selected_task_index = None;
    assert!(!app.move_task_right());
}

#[test]
fn test_start_editing() {
    let mut app = test_app();
    app.board.add_task(0, "Original Title").unwrap();
    app.selected_task_index = Some(0);
    app.start_editing();
    assert_eq!(app.input_mode, InputMode::Editing);
    assert_eq!(app.input_buffer, "Original Title");
    assert!(app.editing_task_id.is_some());
}

#[test]
fn test_save_edit() {
    let mut app = test_app();
    let task_id = app.board.add_task(0, "Original Title").unwrap();
    app.selected_task_index = Some(0);
    app.start_editing();
    app.input_buffer = "Updated Title".to_string();
    app.save_edit();
    assert_eq!(app.input_mode, InputMode::Normal);
    assert_eq!(app.input_buffer, "");
    assert_eq!(app.editing_task_id, None);
    assert_eq!(app.board.columns[0].tasks[0].title, "Updated Title");
    assert_eq!(app.board.columns[0].tasks[0].id, task_id);
}

#[test]
fn test_cancel_editing() {
    let mut app = test_app();
    app.board.add_task(0, "Original Title").unwrap();
    app.selected_task_index = Some(0);
    app.start_editing();
    app.input_buffer = "Changed but cancelled".to_string();
    app.cancel_editing();
    assert_eq!(app.input_mode, InputMode::Normal);
    assert_eq!(app.input_buffer, "");
    assert_eq!(app.editing_task_id, None);
    assert_eq!(app.board.columns[0].tasks[0].title, "Original Title");
}

#[test]
fn test_edit_with_no_selection() {
    let mut app = test_app();
    app.board.add_task(0, "Task").unwrap();
    app.selected_task_index = None;
    app.start_editing();
    assert_eq!(app.input_mode, InputMode::Normal);
    assert_eq!(app.input_buffer, "");
    assert_eq!(app.editing_task_id, None);
}

#[test]
fn test_save_edit_with_empty_buffer() {
    let mut app = test_app();
    app.board.add_task(0, "Original Title").unwrap();
    app.selected_task_index = Some(0);
    app.start_editing();
    app.input_buffer.clear();
    assert!(!app.save_edit());
    assert_eq!(app.input_mode, InputMode::Normal);
    assert_eq!(app.board.columns[0].tasks[0].title, "Original Title");
}

#[test]
fn test_complete_edit_workflow() {
    let mut app = test_app();
    app.start_creating();
    app.input_buffer = "Initial Task".to_string();
    app.create_task();
    assert_eq!(app.board.columns[0].tasks[0].title, "Initial Task");
    assert_eq!(app.selected_task_index, Some(0));
    app.start_editing();
    assert_eq!(app.input_mode, InputMode::Editing);
    assert_eq!(app.input_buffer, "Initial Task");
    app.input_buffer.clear();
    for c in "Updated Task".chars() {
        app.handle_char_input(c);
    }
    assert_eq!(app.input_buffer, "Updated Task");
    app.save_edit();
    assert_eq!(app.input_mode, InputMode::Normal);
    assert_eq!(app.board.columns[0].tasks[0].title, "Updated Task");
}

#[test]
fn test_handle_char_input_in_editing_mode() {
    let mut app = test_app();
    app.board.add_task(0, "Test").unwrap();
    app.selected_task_index = Some(0);
    app.start_editing();
    app.input_buffer.clear();
    app.handle_char_input('N');
    app.handle_char_input('e');
    app.handle_char_input('w');
    assert_eq!(app.input_buffer, "New");
}

#[test]
fn test_auto_save_on_edit() {
    let mut app = test_app();
    app.board.add_task(0, "Original").unwrap();
    app.selected_task_index = Some(0);
    app.start_editing();
    app.input_buffer = "Edited".to_string();
    assert!(app.save_edit());
    assert_eq!(app.board.columns[0].tasks.len(), 1);
    assert_eq!(app.board.columns[0].tasks[0].title, "Edited");
}

#[test]
fn viewing_needs_a_selection() {
    let mut app = test_app();
    app.start_viewing();
    assert_eq!(app.input_mode, InputMode::Normal);
    app.board.add_task(0, "T").unwrap();
    app.selected_task_index = Some(0);
    app.start_viewing();
    assert_eq!(app.input_mode, InputMode::Viewing);
    app.stop_viewing();
    assert_eq!(app.input_mode, InputMode::Normal);
}

#[test]
fn description_workflow() {
    let mut app = test_app();
    app.board.add_task(0, "T").unwrap();
    app.selected_task_index = Some(0);
    app.start_editing_description();
    assert_eq!(app.input_mode, InputMode::EditingDescription);
    assert_eq!(app.input_buffer, "");
    for c in "Notes".chars() {
        app.handle_char_input(c);
    }
    assert!(app.save_description());
    assert_eq!(app.board.columns[0].tasks[0].description, Some("Notes".to_string()));
    app.start_editing_description();
    assert_eq!(app.input_buffer, "Notes");
    app.input_buffer.clear();
    assert!(app.save_description());
    assert_eq!(app.board.columns[0].tasks[0].description, None);
    app.start_editing_description();
    app.cancel_editing_description();
    assert_eq!(app.input_mode, InputMode::Normal);
    assert_eq!(app.editing_task_id, None);
}

#[test]
fn tag_and_priority_workflow() {
    let mut app = test_app();
    app.board.add_task(0, "T").unwrap();
    assert!(!app.cycle_priority());
    app.selected_task_index = Some(0);
    assert!(app.cycle_priority());
    assert_eq!(app.board.columns[0].tasks[0].priority, kanban_tui::Priority::Low);
    app.start_adding_tag();
    assert_eq!(app.input_mode, InputMode::AddingTag);
    for c in "bug".chars() {
        app.handle_char_input(c);
    }
    assert!(app.add_tag());
    assert_eq!(app.board.columns[0].tasks[0].tags, vec!["bug".to_string()]);
    app.start_adding_tag();
    assert!(!app.add_tag());
    app.start_adding_tag();
    app.handle_char_input('x');
    app.cancel_adding_tag();
    assert_eq!(app.input_buffer, "");
    assert_eq!(app.board.columns[0].tasks[0].tags.len(), 1);
}

#[test]
fn board_list_navigation_wraps() {
    let mut app = test_app();
    app.refresh_boards(Some(vec!["a".to_string(), "My Kanban Board".to_string(), "c".to_string()]));
    app.start_board_selection();
    assert_eq!(app.input_mode, InputMode::SelectingBoard);
    assert_eq!(app.selected_board_index, Some(1));
    app.next_board_in_list();
    assert_eq!(app.selected_board_index, Some(2));
    app.next_board_in_list();
    assert_eq!(app.selected_board_index, Some(0));
    app.previous_board_in_list();
    assert_eq!(app.selected_board_index, Some(2));
    app.cancel_board_selection();
    assert_eq!(app.input_mode, InputMode::Normal);
    assert_eq!(app.selected_board_index, None);
}

#[test]
fn switching_to_selected_board() {
    let mut app = test_app();
    app.board.add_task(1, "Old").unwrap();
    app.selected_column = 1;
    app.refresh_boards(Some(vec!["My Kanban Board".to_string(), "other".to_string()]));
    app.start_board_selection();
    app.next_board_in_list();
    let target = app.switch_to_selected_board();
    assert_eq!(target, Some("other".to_string()));
    assert_eq!(app.input_mode, InputMode::Normal);
    assert_eq!(app.selected_board_index, None);
    app.switch_board("other".to_string(), None);
    assert_eq!(app.current_board_name, "other");
    assert_eq!(app.board.name, "other");
    assert_eq!(app.selected_column, 0);
    assert_eq!(app.selected_task_index, None);
    let mut stored = Board::new("stored");
    stored.add_task(0, "kept").unwrap();
    app.switch_board("stored".to_string(), Some(stored));
    assert_eq!(app.board.columns[0].tasks[0].title, "kept");
    assert_eq!(app.selected_column, 0);
    assert_eq!(app.selected_task_index, Some(0));
}

#[test]
fn creating_a_board_trims_the_name() {
    let mut app = test_app();
    app.start_creating_board();
    assert_eq!(app.input_mode, InputMode::CreatingBoard);
    for c in "  Sprint 2 ".chars() {
        app.handle_char_input(c);
    }
    assert_eq!(app.create_new_board(), Some("Sprint 2".to_string()));
    assert_eq!(app.input_buffer, "");
    app.start_creating_board();
    app.handle_char_input(' ');
    assert_eq!(app.create_new_board(), None);
    app.start_creating_board();
    app.handle_char_input('z');
    app.cancel_creating_board();
    assert_eq!(app.input_mode, InputMode::Normal);
}

#[test]
fn deleting_boards() {
    let mut app = test_app();
    app.refresh_boards(Some(vec!["My Kanban Board".to_string()]));
    app.start_board_selection();
    assert_eq!(app.delete_selected_board(), None);
    app.refresh_boards(Some(vec!["My Kanban Board".to_string(), "y".to_string()]));
    assert_eq!(app.delete_selected_board(), Some("My Kanban Board".to_string()));
    let next = app.board_deleted("My Kanban Board", Some(vec!["y".to_string()]));
    assert_eq!(next, Some("y".to_string()));
    assert_eq!(app.available_boards, vec!["y".to_string()]);
    assert_eq!(app.selected_board_index, Some(0));
    app.selected_board_index = Some(1);
    let none = app.board_deleted("gone", None);
    assert_eq!(none, None);
    assert_eq!(app.available_boards, vec!["default".to_string()]);
    assert_eq!(app.selected_board_index, Some(0));
}

#[test]
fn new_app_uses_stored_board() {
    let mut stored = Board::new("Mine");
    stored.add_task(2, "Done thing").unwrap();
    let mut app = App::new("Mine".to_string(), Some(stored));
    assert_eq!(app.board.columns[2].tasks[0].title, "Done thing");
    assert_eq!(app.available_boards, vec!["Mine".to_string()]);
    app.refresh_boards(None);
    assert_eq!(app.available_boards, vec!["Mine".to_string()]);
}

#[test]
fn opening_a_board_selects_its_first_task() {
    let mut stored = Board::new("Mine");
    stored.add_task(0, "First").unwrap();
    stored.add_task(0, "Second").unwrap();
    let app = App::new("Mine".to_string(), Some(stored));
    assert_eq!(app.selected_column, 0);
    assert_eq!(app.selected_task_index, Some(0));
    let fresh = App::new("Fresh".to_string(), None);
    assert_eq!(fresh.selected_task_index, None);
    assert_eq!(fresh.board.columns[1].name, "In Progress");
    assert_eq!(fresh.board.next_task_id, 1);
}

#[test]
fn stale_board_selection_switches_nowhere() {
    let mut app = test_app();
    app.input_mode = InputMode::SelectingBoard;
    app.selected_board_index = Some(5);
    app.input_buffer = "kept".to_string();
    assert_eq!(app.switch_to_selected_board(), None);
    assert_eq!(app.input_mode, InputMode::Normal);
    assert_eq!(app.selected_board_index, None);
    assert_eq!(app.input_buffer, "kept");
}

#[test]
fn add_task_out_of_range_at_exhausted_ids() {
    let mut board = Board::new("Full");
    board.next_task_id = usize::MAX;
    assert_eq!(board.add_task(3, "x"), Err(kanban_tui::BoardError::ColumnIndexOutOfBounds));
}
