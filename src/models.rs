//! The data the assistant works on: tasks (a tree), dates, and chat messages.

use vstd::prelude::*;

verus! {

#[verifier::external_type_specification]
#[verifier::external_body]
pub struct ExJsonValue(serde_json::Value);

#[verifier::external_type_specification]
#[verifier::external_body]
#[verifier::reject_recursive_types(K)]
#[verifier::reject_recursive_types(V)]
pub struct ExJsonMap<K, V>(serde_json::Map<K, V>);

/// Relies on serde_json's `Map::new`, which makes an empty map; it holds a
/// new task's extensions.
pub assume_specification[ serde_json::Map::<String, serde_json::Value>::new ]() -> serde_json::Map<
    String,
    serde_json::Value,
>;

/// A calendar day, as the number of days since the start of the common era
/// (January 1 of year 1 is day 1).
#[derive(Debug, Clone, Copy, PartialEq, Eq, Structural)]
pub struct Date {
    pub days_from_ce: i32,
}

/// What chrono writes for the day numbered `days` from the common era, in the
/// form `%Y年%-m月%-d日`; empty where chrono has no such date.
pub uninterp spec fn date_text_of(days: int) -> Seq<char>;

/// Relies on chrono's `NaiveDate::from_num_days_from_ce_opt` and
/// `NaiveDate::format` to write a day as year, month and day.
#[verifier::external_body]
pub(crate) fn date_text(d: Date) -> (r: String)
    ensures
        r@ == date_text_of(d.days_from_ce as int),
{
    match chrono::NaiveDate::from_num_days_from_ce_opt(d.days_from_ce) {
        Some(day) => day.format("%Y年%-m月%-d日").to_string(),
        None => String::new(),
    }
}

/// Progress of a task.
#[derive(Debug, Clone, Copy, PartialEq, Eq, Structural)]
pub enum TaskStatus {
    NotStarted,
    InProgress,
    Pending,
    OnHold,
    Completed,
}

/// Whether a task is shown in listings.
#[derive(Debug, Clone, Copy, PartialEq, Eq, Structural)]
pub enum Visibility {
    Visible,
    Normal,
    Hidden,
}

/// A to-do item; sub-tasks nest without bound. `extensions` is carried
/// through untouched for plugins.
#[derive(Debug)]
pub struct Task {
    pub id: u32,
    pub title: String,
    pub done: bool,
    pub due_date: Option<Date>,
    pub priority: Option<u8>,
    pub status: TaskStatus,
    pub visibility: Visibility,
    pub notes: Option<String>,
    pub tags: Vec<String>,
    pub subtasks: Vec<Task>,
    pub extensions: serde_json::Map<String, serde_json::Value>,
}

/// A task that is not done and falls due within a look-ahead window.
#[derive(Debug, Clone)]
pub struct DueTask {
    pub id: u32,
    pub title: String,
    pub due_date: Date,
}

/// One message of a conversation with the language model.
#[derive(Debug, Clone)]
pub struct ChatMessage {
    pub role: String,
    pub content: String,
}

/// A request to the chat-completion endpoint.
#[derive(Debug, Clone)]
pub struct ChatRequest {
    pub model: String,
    pub messages: Vec<ChatMessage>,
}

/// One candidate answer of the language model.
#[derive(Debug, Clone)]
pub struct ChatChoice {
    pub message: ChatMessage,
}

/// The language model's answer.
#[derive(Debug, Clone)]
pub struct ChatResponse {
    pub choices: Vec<ChatChoice>,
}

} // verus!
