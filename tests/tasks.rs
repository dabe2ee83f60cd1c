use kotonoha_core::kotonoha::{make_greeting_message, time_announcement};
use kotonoha_core::models::{Date, Task, TaskStatus, Visibility};
use kotonoha_core::tasks::{
    add_task, count_open, find_due_within_days, find_task_id_by_title_fuzzy, get_task_file,
    get_task_title, mark_task_done, set_task_file, summarize_tasks_for_prompt, task_added_reply,
    task_done_reply, task_list_lines, TaskFile,
};

fn task(id: u32, title: &str, done: bool, subtasks: Vec<Task>) -> Task {
    Task {
        id,
        title: title.to_string(),
        done,
        due_date: None,
        priority: None,
        status: TaskStatus::NotStarted,
        visibility: Visibility::Visible,
        notes: None,
        tags: vec![],
        subtasks,
        extensions: serde_json::Map::new(),
    }
}

fn due(mut t: Task, day: i32) -> Task {
    t.due_date = Some(Date { days_from_ce: day });
    t
}

#[test]
fn test_greeting_with_zero_tasks() {
    let tasks = vec![];
    let message = make_greeting_message(&tasks);
    assert!(message.contains("すべてのタスクが完了"));
}

#[test]
fn test_greeting_with_pending_tasks() {
    let tasks = vec![task(1, "テストタスク", false, vec![])];
    let message = make_greeting_message(&tasks);
    assert!(message.contains("現在 1 件のタスク"));
}

#[test]
fn greeting_counts_only_open_top_level_tasks() {
    let tasks = vec![
        task(1, "a", false, vec![task(4, "sub", false, vec![])]),
        task(2, "b", true, vec![]),
        task(3, "c", false, vec![]),
    ];
    assert_eq!(count_open(&tasks), 2);
    assert_eq!(make_greeting_message(&tasks), "おはようございます。現在 2 件のタスクがあります。");
}

#[test]
fn time_announcement_pads_two_digits() {
    assert_eq!(
        time_announcement(9, 5),
        "ただいま、09時05分です。水分補給と休憩も忘れずに。"
    );
    assert_eq!(
        time_announcement(23, 59),
        "ただいま、23時59分です。水分補給と休憩も忘れずに。"
    );
}

#[test]
fn fuzzy_lookup_is_case_insensitive_and_skips_done() {
    let tasks = vec![
        task(1, "Weekly Report", true, vec![]),
        task(2, "Slides", false, vec![task(5, "weekly report draft", false, vec![])]),
        task(3, "weekly report final", false, vec![]),
    ];
    assert_eq!(find_task_id_by_title_fuzzy(&tasks, "WEEKLY REPORT"), Some(5));
    assert_eq!(find_task_id_by_title_fuzzy(&tasks, "final"), Some(3));
    assert_eq!(find_task_id_by_title_fuzzy(&tasks, "nothing"), None);
}

#[test]
fn title_lookup_searches_sub_tasks() {
    let tasks = vec![task(1, "親", false, vec![task(2, "子", false, vec![task(3, "孫", false, vec![])])])];
    assert_eq!(get_task_title(&tasks, 3), Some("孫".to_string()));
    assert_eq!(get_task_title(&tasks, 1), Some("親".to_string()));
    assert_eq!(get_task_title(&tasks, 9), None);
}

#[test]
fn due_query_includes_overdue_and_window_in_pre_order() {
    let tasks = vec![
        due(task(1, "late", false, vec![due(task(2, "child", false, vec![]), 12)]), 5),
        due(task(3, "done", true, vec![]), 10),
        due(task(4, "far", false, vec![]), 20),
        task(5, "undated", false, vec![]),
        due(task(6, "edge", false, vec![]), 13),
    ];
    let found = find_due_within_days(&tasks, Date { days_from_ce: 10 }, 3);
    let ids: Vec<u32> = found.iter().map(|d| d.id).collect();
    assert_eq!(ids, vec![1, 2, 6]);
    assert_eq!(found[1].title, "child");
    assert_eq!(found[1].due_date, Date { days_from_ce: 12 });
    assert!(find_due_within_days(&vec![], Date { days_from_ce: 10 }, 3).is_empty());
}

#[test]
fn add_task_numbers_above_largest_id() {
    let mut tasks = vec![];
    assert_eq!(add_task(&mut tasks, "一件目"), Some(1));
    assert_eq!(add_task(&mut tasks, "二件目"), Some(2));
    assert_eq!(tasks.len(), 2);
    assert_eq!(tasks[0].title, "一件目");
    assert_eq!(tasks[1].title, "二件目");
    assert!(!tasks[1].done);
    assert_eq!(tasks[1].status, TaskStatus::NotStarted);

    let mut gap = vec![task(7, "a", false, vec![]), task(3, "b", false, vec![])];
    assert_eq!(add_task(&mut gap, "c"), Some(8));
}

#[test]
fn add_task_refuses_when_id_would_overflow() {
    let mut tasks = vec![task(u32::MAX, "max", false, vec![])];
    assert_eq!(add_task(&mut tasks, "one more"), None);
    assert_eq!(tasks.len(), 1);
}

#[test]
fn mark_done_reaches_nested_tasks() {
    let mut tasks = vec![
        task(1, "a", false, vec![task(2, "b", false, vec![])]),
        task(3, "c", false, vec![]),
    ];
    assert!(mark_task_done(&mut tasks, 2));
    assert!(tasks[0].subtasks[0].done);
    assert_eq!(tasks[0].subtasks[0].status, TaskStatus::Completed);
    assert!(!tasks[0].done);
    assert!(mark_task_done(&mut tasks, 3));
    assert!(tasks[1].done);
    assert!(!mark_task_done(&mut tasks, 42));
}

#[test]
fn replies_for_add_and_done() {
    assert_eq!(task_added_reply("洗濯"), "タスクを「洗濯」を登録しました。");
    assert_eq!(task_done_reply(12, true), "タスク 12 を完了にしました。");
    assert_eq!(task_done_reply(0, false), "タスク 0 は見つかりませんでした。");
}

#[test]
fn summary_lists_open_top_level_titles() {
    assert_eq!(summarize_tasks_for_prompt(&vec![]), "現在、登録されているタスクはありません。");
    let tasks = vec![
        task(1, "一件目", false, vec![]),
        task(2, "済み", true, vec![]),
        task(3, "三件目", false, vec![]),
    ];
    assert_eq!(
        summarize_tasks_for_prompt(&tasks),
        "現在の未完了タスク一覧:\n・一件目\n・三件目"
    );
}

#[test]
fn listing_indents_sub_tasks() {
    let tasks = vec![
        task(1, "親", false, vec![task(2, "子", true, vec![])]),
        task(10, "次", false, vec![]),
    ];
    assert_eq!(
        task_list_lines(&tasks),
        vec!["1: 親 [　]", "  2: 子 [✅]", "10: 次 [　]"]
    );
}

#[test]
fn task_file_first_setting_wins() {
    let mut config = TaskFile::new();
    assert_eq!(get_task_file(&config), "tasks.json");
    set_task_file(&mut config, "a.json");
    set_task_file(&mut config, "b.json");
    assert_eq!(get_task_file(&config), "a.json");
}
