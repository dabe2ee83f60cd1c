use kotonoha_core::confirm::{answer_confirmation, interpret_answer, Answer};
use kotonoha_core::dispatch::{route_input, Route};
use kotonoha_core::models::{Date, Task, TaskStatus, Visibility};
use kotonoha_core::scanner::{reminder, DueTaskScanner, PendingConfirmation};
use kotonoha_core::speech::{SpeechKind, SpeechQueue, Step};
use kotonoha_core::tasks::find_due_within_days;

const MAY_1_2024: i32 = 739007;

fn task(id: u32, title: &str, done: bool, due: Option<i32>) -> Task {
    Task {
        id,
        title: title.to_string(),
        done,
        due_date: due.map(|d| Date { days_from_ce: d }),
        priority: None,
        status: TaskStatus::NotStarted,
        visibility: Visibility::Visible,
        notes: None,
        tags: vec![],
        subtasks: vec![],
        extensions: serde_json::Map::new(),
    }
}

fn alerts(speech: &mut SpeechQueue) -> Vec<String> {
    let mut out = Vec::new();
    loop {
        match speech.next(0) {
            Step::Speak(r) => {
                assert_eq!(r.kind, SpeechKind::Alert);
                out.push(r.text);
            }
            Step::Discard(_) => {}
            Step::Idle => return out,
        }
    }
}

#[test]
fn one_notification_per_tick_with_three_overdue() {
    let today = Date { days_from_ce: MAY_1_2024 };
    let tasks = vec![
        task(1, "週報提出", false, Some(MAY_1_2024 - 3)),
        task(2, "資料作成", false, Some(MAY_1_2024 - 2)),
        task(3, "請求書", false, Some(MAY_1_2024 - 1)),
    ];
    let due = find_due_within_days(&tasks, today, 0);
    assert_eq!(due.len(), 3);

    let mut scanner = DueTaskScanner::new(60_000);
    let mut pending = None;
    let mut speech = SpeechQueue::new(0, 0);
    let picked = scanner.scan(&due, &mut pending, &mut speech, 1_000);
    assert_eq!(picked, Some(0));
    assert_eq!(
        pending,
        Some(PendingConfirmation { task_id: 1, due_date: Date { days_from_ce: MAY_1_2024 - 3 } })
    );
    let spoken = alerts(&mut speech);
    assert_eq!(spoken.len(), 1);
    assert!(spoken[0].contains("週報提出"));
}

#[test]
fn no_notification_while_confirmation_pending() {
    let due = find_due_within_days(&vec![task(1, "a", false, Some(1))], Date { days_from_ce: 5 }, 0);
    let mut scanner = DueTaskScanner::new(0);
    let held = Some(PendingConfirmation { task_id: 9, due_date: Date { days_from_ce: 1 } });
    let mut pending = held;
    let mut speech = SpeechQueue::new(0, 0);
    assert_eq!(scanner.scan(&due, &mut pending, &mut speech, 0), None);
    assert_eq!(pending, held);
    assert!(speech.is_empty());
    assert!(scanner.should_notify(1, 0));
}

#[test]
fn cooldown_prevents_re_notification() {
    let due = find_due_within_days(&vec![task(7, "掃除", false, Some(10))], Date { days_from_ce: 10 }, 0);
    let mut scanner = DueTaskScanner::new(10_000);
    let mut speech = SpeechQueue::new(0, 0);

    let mut pending = None;
    assert_eq!(scanner.scan(&due, &mut pending, &mut speech, 100_000), Some(0));

    let mut pending = None;
    assert_eq!(scanner.scan(&due, &mut pending, &mut speech, 105_000), None);
    assert_eq!(pending, None);
    assert!(!scanner.should_notify(7, 105_000));

    assert!(scanner.should_notify(7, 110_000));
    let mut pending = None;
    assert_eq!(scanner.scan(&due, &mut pending, &mut speech, 110_000), Some(0));
    assert_eq!(alerts(&mut speech).len(), 2);
}

#[test]
fn next_tick_takes_the_next_task() {
    let tasks = vec![task(1, "a", false, Some(1)), task(2, "b", false, Some(2))];
    let due = find_due_within_days(&tasks, Date { days_from_ce: 3 }, 0);
    let mut scanner = DueTaskScanner::new(60_000);
    let mut speech = SpeechQueue::new(0, 0);
    let mut pending = None;
    assert_eq!(scanner.scan(&due, &mut pending, &mut speech, 0), Some(0));
    pending = None;
    assert_eq!(scanner.scan(&due, &mut pending, &mut speech, 1), Some(1));
    assert_eq!(pending.map(|p| p.task_id), Some(2));
}

#[test]
fn reminder_names_title_and_date() {
    let text = reminder("週報提出", Date { days_from_ce: MAY_1_2024 });
    assert_eq!(
        text,
        "「週報提出」の期限は2024年5月1日です。今やりますか？はいかいいえで答えてください。"
    );
}

#[test]
fn confirmation_gating_reprompts_on_unrelated_input() {
    let held = Some(PendingConfirmation { task_id: 1, due_date: Date { days_from_ce: 1 } });
    assert!(matches!(route_input(true, "weather today?"), Route::Answer));

    let mut pending = held;
    let mut speech = SpeechQueue::new(0, 0);
    let a = answer_confirmation(&mut pending, "weather today?", &None, &mut speech, 0);
    assert_eq!(a, Answer::Other);
    assert_eq!(pending, held);
    match speech.next(0) {
        Step::Speak(r) => {
            assert_eq!(r.kind, SpeechKind::Alert);
            assert_eq!(r.text, "はいかいいえで答えてください。");
        }
        other => panic!("expected a re-prompt, got {:?}", other),
    }
}

#[test]
fn confirmation_yes_names_the_task() {
    let mut pending = Some(PendingConfirmation { task_id: 1, due_date: Date { days_from_ce: 1 } });
    let mut speech = SpeechQueue::new(0, 0);
    let title = Some("週報提出".to_string());
    assert_eq!(answer_confirmation(&mut pending, "  YES ", &title, &mut speech, 0), Answer::Yes);
    assert_eq!(pending, None);
    match speech.next(0) {
        Step::Speak(r) => {
            assert_eq!(r.kind, SpeechKind::User);
            assert_eq!(r.text, "「週報提出」ですね。では、始めましょう。");
        }
        other => panic!("expected a reply, got {:?}", other),
    }
}

#[test]
fn confirmation_yes_without_title() {
    let mut pending = Some(PendingConfirmation { task_id: 1, due_date: Date { days_from_ce: 1 } });
    let mut speech = SpeechQueue::new(0, 0);
    assert_eq!(answer_confirmation(&mut pending, "はい", &None, &mut speech, 0), Answer::Yes);
    match speech.next(0) {
        Step::Speak(r) => assert_eq!(r.text, "わかりました。では、始めましょう。"),
        other => panic!("expected a reply, got {:?}", other),
    }
}

#[test]
fn confirmation_no_defers() {
    let mut pending = Some(PendingConfirmation { task_id: 1, due_date: Date { days_from_ce: 1 } });
    let mut speech = SpeechQueue::new(0, 0);
    assert_eq!(answer_confirmation(&mut pending, "No", &None, &mut speech, 0), Answer::No);
    assert_eq!(pending, None);
    match speech.next(0) {
        Step::Speak(r) => {
            assert_eq!(r.kind, SpeechKind::User);
            assert_eq!(r.text, "わかりました。また後でお知らせしますね。");
        }
        other => panic!("expected a reply, got {:?}", other),
    }
}

#[test]
fn answers_are_exact_words() {
    assert_eq!(interpret_answer("y"), Answer::Yes);
    assert_eq!(interpret_answer("うん"), Answer::Yes);
    assert_eq!(interpret_answer("n"), Answer::No);
    assert_eq!(interpret_answer("あとで"), Answer::No);
    assert_eq!(interpret_answer("yes please"), Answer::Other);
    assert_eq!(interpret_answer(""), Answer::Other);
}

#[test]
fn reminder_from_written_date() {
    assert_eq!(
        kotonoha_core::scanner::reminder_from("掃除", "明日"),
        "「掃除」の期限は明日です。今やりますか？はいかいいえで答えてください。"
    );
}
