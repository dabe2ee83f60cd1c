//! Prompts for the language model and the offline stand-ins for its answers.

use crate::text::{
    chars_of, contains_str, find_chars, has_substring, is_white, lower_of, occurs_at, to_lower,
    trim, trimmed,
};
use vstd::prelude::*;

verus! {

/// The command that a phrase asks for without the classifier: `list` for
/// asking to see or check the tasks.
pub open spec fn special_command_of(s: Seq<char>) -> Option<Seq<char>> {
    if has_substring(s, "タスク一覧"@) || has_substring(s, "タスク確認"@) {
        Some("list"@)
    } else {
        None
    }
}

/// Recognises phrases that ask for the task list.
pub fn detect_special_command(input: &str) -> (r: Option<&'static str>)
    ensures
        match r {
            Some(c) => special_command_of(input@) == Some(c@),
            None => special_command_of(input@) is None,
        },
{
    if contains_str(input, "タスク一覧") || contains_str(input, "タスク確認") {
        Some("list")
    } else {
        None
    }
}

/// The system prompt that opens every conversation.
pub const SYSTEM_PROMPT: &'static str = "
あなたの名前は「ことのは」です。
あなたはユーザー専属の秘書型AIとして動作します。

【会話ルール】
- 自分の名前は必ず「ことのは」と名乗ってください
- ユーザーに対しては丁寧で親しみやすい口調で話します
- 名前や役割を聞かれたときは「秘書のことのはです」と答えてください
- 話し方は柔らかく、女性的な印象にしてください
- ユーザーの感情に寄り添い、共感的に返答します

【目的】
- ユーザーのタスク管理をサポートする
- ユーザーの生活や思考を整理する手助けをする
- 必要に応じてタスクを提案する

これからユーザーと会話を始めます。
";

/// The assistant's first words in the conversation history.
pub const FIRST_GREETING: &'static str = "
はじめまして、秘書のことのはです。
今日もよろしくお願いしますね。 ";

/// The classification prompt for `input`.
pub open spec fn classification_prompt(input: Seq<char>) -> Seq<char> {
    "以下の文章はユーザからの入力です。この文章が「やるべきこと（ToDo）」に関する指示なら「タスク」、そうでなく会話や質問なら「雑談」とだけ返答してください。\n\n文章："@
        + input
}

/// Asks the language model whether `input` is about a task or is chat.
pub fn make_classification_prompt(input: &str) -> (r: String)
    ensures
        r@ == classification_prompt(input@),
{
    let mut r = String::from_str(
        "以下の文章はユーザからの入力です。この文章が「やるべきこと（ToDo）」に関する指示なら「タスク」、そうでなく会話や質問なら「雑談」とだけ返答してください。\n\n文章：",
    );
    r.append(input);
    r
}

/// The prompt that asks which task operation `input` requests.
pub open spec fn task_action_prompt(input: Seq<char>) -> Seq<char> {
    "次のユーザーの発言がタスク操作だとしたら、操作の種類を一語で答えてください。「追加」「完了」「一覧」「なし」のいずれかで返答してください。\n\n入力: "@
        + input
}

/// Asks the language model which task operation `input` requests.
pub fn make_task_action_prompt(input: &str) -> (r: String)
    ensures
        r@ == task_action_prompt(input@),
{
    let mut r = String::from_str(
        "次のユーザーの発言がタスク操作だとしたら、操作の種類を一語で答えてください。「追加」「完了」「一覧」「なし」のいずれかで返答してください。\n\n入力: ",
    );
    r.append(input);
    r
}

/// The prompt that asks for the title of the task in `input`.
pub open spec fn extract_task_prompt(input: Seq<char>) -> Seq<char> {
    "以下の文から、やるべきタスクがあればタイトルだけを抽出してください。\n文:"@ + input
}

/// Asks the language model for the title of the task in `input`.
pub fn make_extract_task_prompt(input: &str) -> (r: String)
    ensures
        r@ == extract_task_prompt(input@),
{
    let mut r = String::from_str("以下の文から、やるべきタスクがあればタイトルだけを抽出してください。\n文:");
    r.append(input);
    r
}

/// The user turn of a chat: the task summary, then what the user said.
pub open spec fn chat_turn_text(summary: Seq<char>, input: Seq<char>) -> Seq<char> {
    "【現在のタスク状況】\n"@ + summary + "\n\n【ユーザー発言】\n"@ + input
}

/// Builds the user turn of a chat from the task summary and the input.
pub fn make_chat_turn(summary: &str, input: &str) -> (r: String)
    ensures
        r@ == chat_turn_text(summary@, input@),
{
    let mut r = String::from_str("【現在のタスク状況】\n");
    r.append(summary);
    r.append("\n\n【ユーザー発言】\n");
    r.append(input);
    r
}

/// What the language model's label becomes: trimmed, then in lowercase.
pub fn normalize_label(content: &str) -> (r: String)
    ensures
        r@ == lower_of(trimmed(content@)),
{
    let t = trim(content);
    to_lower(t.as_str())
}

/// How the dispatch loop treats an input, by the classifier's label.
#[derive(Debug, Clone, Copy, PartialEq, Eq, Structural)]
pub enum Intent {
    Task,
    Chat,
    Unknown,
}

/// The intent that a normalized label names.
pub open spec fn intent_of(label: Seq<char>) -> Intent {
    if label == "タスク"@ {
        Intent::Task
    } else if label == "雑談"@ {
        Intent::Chat
    } else {
        Intent::Unknown
    }
}

/// Reads a normalized label.
pub fn intent_of_label(label: &str) -> (r: Intent)
    ensures
        r == intent_of(label@),
{
    if crate::text::same_text(label, "タスク") {
        Intent::Task
    } else if crate::text::same_text(label, "雑談") {
        Intent::Chat
    } else {
        Intent::Unknown
    }
}

/// The title that the language model extracted, unless it found none: an
/// empty answer or `なし`.
pub fn extracted_title(answer: &str) -> (r: Option<String>)
    ensures
        ({
            let t = trimmed(answer@);
            match r {
                Some(s) => s@ == t && t.len() > 0 && t != "なし"@,
                None => t.len() == 0 || t == "なし"@,
            }
        }),
{
    let t = trim(answer);
    if t.unicode_len() == 0 || crate::text::same_text(t.as_str(), "なし") {
        None
    } else {
        Some(t)
    }
}

/// The offline stand-in for the classifier: a task when the input mentions
/// a task, doing, or finishing; chat otherwise.
pub open spec fn mock_label(input: Seq<char>) -> Seq<char> {
    if has_substring(input, "タスク"@) || has_substring(input, "やる"@) || has_substring(
        input,
        "完了"@,
    ) {
        "タスク"@
    } else {
        "雑談"@
    }
}

/// Classifies `input` without the language model.
pub fn mock_classify(input: &str) -> (r: &'static str)
    ensures
        r@ == mock_label(input@),
{
    if contains_str(input, "タスク") || contains_str(input, "やる") || contains_str(input, "完了") {
        "タスク"
    } else {
        "雑談"
    }
}

/// The offline stand-in for the task-operation classifier.
pub open spec fn mock_action(input: Seq<char>) -> Seq<char> {
    if has_substring(input, "完了"@) {
        "完了"@
    } else if has_substring(input, "一覧"@) {
        "一覧"@
    } else if has_substring(input, "追加"@) || has_substring(input, "覚えて"@) || has_substring(
        input,
        "登録"@,
    ) {
        "追加"@
    } else {
        "なし"@
    }
}

/// Names the task operation in `input` without the language model.
pub fn mock_task_action(input: &str) -> (r: &'static str)
    ensures
        r@ == mock_action(input@),
{
    if contains_str(input, "完了") {
        "完了"
    } else if contains_str(input, "一覧") {
        "一覧"
    } else if contains_str(input, "追加") || contains_str(input, "覚えて") || contains_str(
        input,
        "登録",
    ) {
        "追加"
    } else {
        "なし"
    }
}

/// A character that ends a phrase: whitespace or punctuation.
pub open spec fn is_phrase_break(c: char) -> bool {
    is_white(c) || c == '、' || c == '。' || c == ',' || c == '.' || c == '！' || c == '!' || c
        == '?' || c == '？'
}

/// Where the phrase that ends at `k` starts: just after the last phrase
/// break before `k`, or at 0.
pub open spec fn phrase_start(s: Seq<char>, k: int) -> int
    decreases k,
{
    if k <= 0 {
        0
    } else if is_phrase_break(s[k - 1]) {
        k
    } else {
        phrase_start(s, k - 1)
    }
}

/// `i` is where the word "タスク" first occurs in `s`.
pub open spec fn first_task_word(s: Seq<char>, i: int) -> bool {
    occurs_at(s, "タスク"@, i) && forall|j: int| 0 <= j < i ==> !occurs_at(s, "タスク"@, j)
}

/// The offline stand-in for title extraction: the phrase that ends with the
/// first "タスク", or the whole trimmed input when there is none.
pub open spec fn mock_title_of(s: Seq<char>, r: Seq<char>) -> bool {
    if has_substring(s, "タスク"@) {
        exists|i: int|
            first_task_word(s, i) && r == s.subrange(phrase_start(s, i + 3), i + 3)
    } else {
        r == trimmed(s)
    }
}

/// Extracts a task title from `input` without the language model.
pub fn mock_task_title(input: &str) -> (r: String)
    ensures
        mock_title_of(input@, r@),
{
    let word = "タスク";
    proof {
        reveal_strlit("タスク");
    }
    let cs = chars_of(input);
    let w = chars_of(word);
    match find_chars(&cs, &w) {
        Some(i) => {
            let n = cs.len();
            assert(i + w@.len() <= n);
            let end = i + w.len();
            let mut k: usize = end;
            while k > 0 && !(crate::text::is_whitespace(cs[k - 1]) || is_break_punct(cs[k - 1]))
                invariant
                    cs@ == input@,
                    end <= cs@.len(),
                    k <= end,
                    phrase_start(input@, end as int) == phrase_start(input@, k as int),
                decreases k,
            {
                k -= 1;
            }
            assert(phrase_start(input@, k as int) == k);
            assert(first_task_word(input@, i as int));
            let r = String::from_str(input.substring_char(k, end));
            assert(r@ == input@.subrange(phrase_start(input@, i + 3), i + 3));
            r
        },
        None => trim(input),
    }
}

fn is_break_punct(c: char) -> (r: bool)
    ensures
        r == (c == '、' || c == '。' || c == ',' || c == '.' || c == '！' || c == '!' || c == '?'
            || c == '？'),
{
    c == '、' || c == '。' || c == ',' || c == '.' || c == '！' || c == '!' || c == '?' || c == '？'
}

} // verus!
