use todo_list_manager::state::{Message, Tab, TaskListApp};
use todo_list_manager::trim::trim_str;

fn names(tasks: &Vec<todo_list_manager::state::Task>) -> Vec<String> {
    tasks.iter().map(|t| t.name.clone()).collect()
}

fn flags(tasks: &Vec<todo_list_manager::state::Task>) -> Vec<bool> {
    tasks.iter().map(|t| t.completed).collect()
}

#[test]
fn scenario_a_add_buy_milk() {
    let mut app = TaskListApp::new();
    app.update(Message::InputChanged("Buy milk".to_string()));
    app.update(Message::AddTask);
    assert_eq!(names(&app.tasks_home), vec!["Buy milk".to_string()]);
    assert_eq!(flags(&app.tasks_home), vec![false]);
    assert_eq!(app.task_name, "");
}

#[test]
fn scenario_b_whitespace_rejected_on_work() {
    let mut app = TaskListApp::new();
    app.update(Message::InputChanged("Buy milk".to_string()));
    app.update(Message::AddTask);
    app.update(Message::SwitchTab(Tab::Work));
    app.update(Message::InputChanged("  ".to_string()));
    app.update(Message::AddTask);
    assert!(app.tasks_work.is_empty());
    assert_eq!(names(&app.tasks_home), vec!["Buy milk".to_string()]);
    assert_eq!(app.task_name, "  ");
}

#[test]
fn scenario_c_toggle_then_remove() {
    let mut app = TaskListApp::new();
    app.update(Message::InputChanged("Buy milk".to_string()));
    app.update(Message::AddTask);
    app.update(Message::ToggleTask(Tab::Home, 0));
    assert_eq!(names(&app.tasks_home), vec!["Buy milk".to_string()]);
    assert_eq!(flags(&app.tasks_home), vec![true]);
    app.update(Message::RemoveCompletedTasks);
    assert!(app.tasks_home.is_empty());
}

#[test]
fn scenario_d_remove_keeps_survivor() {
    let mut app = TaskListApp::new();
    app.update(Message::InputChanged("A".to_string()));
    app.update(Message::AddTask);
    app.update(Message::ToggleTask(Tab::Home, 0));
    app.update(Message::InputChanged("B".to_string()));
    app.update(Message::AddTask);
    assert_eq!(names(&app.tasks_home), vec!["A".to_string(), "B".to_string()]);
    assert_eq!(flags(&app.tasks_home), vec![true, false]);
    app.update(Message::RemoveCompletedTasks);
    assert_eq!(names(&app.tasks_home), vec!["B".to_string()]);
    assert_eq!(flags(&app.tasks_home), vec![false]);
}

#[test]
fn add_trims_surrounding_whitespace() {
    let mut app = TaskListApp::new();
    app.update(Message::InputChanged("  Buy milk \t".to_string()));
    app.update(Message::AddTask);
    assert_eq!(names(&app.tasks_home), vec!["Buy milk".to_string()]);
    assert_eq!(app.task_name, "");
}

#[test]
fn add_rejects_empty_input() {
    let mut app = TaskListApp::new();
    app.update(Message::AddTask);
    assert!(app.tasks_home.is_empty());
    assert_eq!(app.task_name, "");
}

#[test]
fn add_rejects_unicode_whitespace_input() {
    let mut app = TaskListApp::new();
    app.update(Message::InputChanged("\u{3000}\u{00A0} \t\n".to_string()));
    app.update(Message::AddTask);
    assert!(app.tasks_home.is_empty());
    assert_eq!(app.task_name, "\u{3000}\u{00A0} \t\n");
}

#[test]
fn tab_isolation_under_all_operations() {
    let mut app = TaskListApp::new();
    app.update(Message::InputChanged("home task".to_string()));
    app.update(Message::AddTask);
    app.update(Message::SwitchTab(Tab::Work));
    app.update(Message::InputChanged("work task".to_string()));
    app.update(Message::AddTask);
    app.update(Message::ToggleTask(Tab::Work, 0));
    app.update(Message::RemoveCompletedTasks);
    assert!(app.tasks_work.is_empty());
    assert_eq!(names(&app.tasks_home), vec!["home task".to_string()]);
    assert_eq!(flags(&app.tasks_home), vec![false]);
    assert!(app.tasks_personal.is_empty());
}

#[test]
fn toggle_twice_restores_flag() {
    let mut app = TaskListApp::new();
    app.update(Message::InputChanged("chore".to_string()));
    app.update(Message::AddTask);
    app.update(Message::ToggleTask(Tab::Home, 0));
    app.update(Message::ToggleTask(Tab::Home, 0));
    assert_eq!(flags(&app.tasks_home), vec![false]);
    assert_eq!(names(&app.tasks_home), vec!["chore".to_string()]);
}

#[test]
fn toggle_out_of_range_is_a_noop() {
    let mut app = TaskListApp::new();
    app.update(Message::InputChanged("chore".to_string()));
    app.update(Message::AddTask);
    app.update(Message::ToggleTask(Tab::Home, 5));
    assert_eq!(flags(&app.tasks_home), vec![false]);
}

#[test]
fn toggle_against_stale_tab_is_a_noop() {
    let mut app = TaskListApp::new();
    app.update(Message::SwitchTab(Tab::Work));
    app.update(Message::InputChanged("report".to_string()));
    app.update(Message::AddTask);
    app.update(Message::SwitchTab(Tab::Home));
    app.update(Message::ToggleTask(Tab::Work, 0));
    assert_eq!(flags(&app.tasks_work), vec![false]);
}

#[test]
fn remove_is_a_stable_filter() {
    let mut app = TaskListApp::new();
    for name in ["A", "B", "C", "D"] {
        app.update(Message::InputChanged(name.to_string()));
        app.update(Message::AddTask);
    }
    app.update(Message::ToggleTask(Tab::Home, 1));
    app.update(Message::ToggleTask(Tab::Home, 3));
    app.update(Message::RemoveCompletedTasks);
    assert_eq!(names(&app.tasks_home), vec!["A".to_string(), "C".to_string()]);
    assert_eq!(flags(&app.tasks_home), vec![false, false]);
}

#[test]
fn remove_on_empty_list_is_a_noop() {
    let mut app = TaskListApp::new();
    app.update(Message::RemoveCompletedTasks);
    assert!(app.tasks_home.is_empty());
}

#[test]
fn remove_with_nothing_completed_keeps_all() {
    let mut app = TaskListApp::new();
    for name in ["A", "B"] {
        app.update(Message::InputChanged(name.to_string()));
        app.update(Message::AddTask);
    }
    app.update(Message::RemoveCompletedTasks);
    assert_eq!(names(&app.tasks_home), vec!["A".to_string(), "B".to_string()]);
}

#[test]
fn input_clears_only_on_successful_add() {
    let mut app = TaskListApp::new();
    app.update(Message::InputChanged(" \t ".to_string()));
    app.update(Message::AddTask);
    assert_eq!(app.task_name, " \t ");
    app.update(Message::InputChanged("done soon".to_string()));
    app.update(Message::AddTask);
    assert_eq!(app.task_name, "");
}

#[test]
fn switch_tab_keeps_pending_input() {
    let mut app = TaskListApp::new();
    app.update(Message::InputChanged("draft".to_string()));
    app.update(Message::SwitchTab(Tab::Personal));
    assert_eq!(app.task_name, "draft");
    assert!(matches!(app.current_tab, Tab::Personal));
}

#[test]
fn trim_agrees_with_std_trim() {
    let samples = [
        "",
        "   ",
        "a",
        " a ",
        "  Buy milk \t\n",
        "\u{3000}wide\u{3000}",
        "\u{00A0}\u{2009}x y\u{2028}",
        "inner  space kept",
        "\ttabs\t",
    ];
    for s in samples {
        assert_eq!(trim_str(s), s.trim(), "trimming {:?}", s);
    }
}

#[test]
fn tab_titles() {
    assert_eq!(Tab::Home.title(), "Home");
    assert_eq!(Tab::Work.title(), "Work");
    assert_eq!(Tab::Personal.title(), "Personal");
}

#[test]
fn initial_state_is_empty() {
    let app = TaskListApp::new();
    assert!(matches!(app.current_tab, Tab::Home));
    assert_eq!(app.task_name, "");
    assert!(app.tasks_home.is_empty());
    assert!(app.tasks_work.is_empty());
    assert!(app.tasks_personal.is_empty());
    assert_eq!(app.title(), "Task List App");
}
