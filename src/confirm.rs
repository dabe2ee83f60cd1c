//! The confirmation state machine: the user's next utterance after a
//! reminder is read as yes, no, or neither.

use crate::scanner::PendingConfirmation;
use crate::speech::{added, SpeechKind, SpeechQueue};
use crate::text::{lower_of, same_text, to_lower, trim, trimmed};
use vstd::prelude::*;

verus! {

/// How an utterance answers a yes/no question.
#[derive(Debug, Clone, Copy, PartialEq, Eq, Structural)]
pub enum Answer {
    Yes,
    No,
    Other,
}

/// The affirmative words, already in lowercase.
pub open spec fn is_yes_word(s: Seq<char>) -> bool {
    s == "yes"@ || s == "y"@ || s == "はい"@ || s == "うん"@ || s == "やる"@ || s == "する"@
}

/// The negative words, already in lowercase.
pub open spec fn is_no_word(s: Seq<char>) -> bool {
    s == "no"@ || s == "n"@ || s == "いいえ"@ || s == "いや"@ || s == "やらない"@ || s
        == "あとで"@
}

/// The answer that the lowercase, trimmed utterance `s` gives.
pub open spec fn answer_of(s: Seq<char>) -> Answer {
    if is_yes_word(s) {
        Answer::Yes
    } else if is_no_word(s) {
        Answer::No
    } else {
        Answer::Other
    }
}

/// What is said after a yes, naming the task when its title is known.
pub open spec fn accepted_text(title: Option<Seq<char>>) -> Seq<char> {
    match title {
        Some(t) => "「"@ + t + "」ですね。では、始めましょう。"@,
        None => "わかりました。では、始めましょう。"@,
    }
}

/// What is said after a no.
pub open spec fn deferred_text() -> Seq<char> {
    "わかりました。また後でお知らせしますね。"@
}

/// What is said when the utterance is neither yes nor no.
pub open spec fn reprompt_text() -> Seq<char> {
    "はいかいいえで答えてください。"@
}

/// Reads an utterance that is already trimmed and in lowercase.
pub fn classify_answer(lowered: &str) -> (r: Answer)
    ensures
        r == answer_of(lowered@),
{
    if same_text(lowered, "yes") || same_text(lowered, "y") || same_text(lowered, "はい")
        || same_text(lowered, "うん") || same_text(lowered, "やる") || same_text(lowered, "する") {
        Answer::Yes
    } else if same_text(lowered, "no") || same_text(lowered, "n") || same_text(lowered, "いいえ")
        || same_text(lowered, "いや") || same_text(lowered, "やらない") || same_text(
        lowered,
        "あとで",
    ) {
        Answer::No
    } else {
        Answer::Other
    }
}

/// Reads a raw utterance: trimmed, then compared in lowercase.
pub fn interpret_answer(input: &str) -> (r: Answer)
    ensures
        r == answer_of(lower_of(trimmed(input@))),
{
    let t = trim(input);
    let l = to_lower(t.as_str());
    classify_answer(l.as_str())
}

fn accepted_message(title: &Option<String>) -> (r: String)
    ensures
        r@ == accepted_text(
            match title {
                Some(t) => Some(t@),
                None => None,
            },
        ),
{
    match title {
        Some(t) => {
            let mut r = String::from_str("「");
            r.append(t.as_str());
            r.append("」ですね。では、始めましょう。");
            r
        },
        None => String::from_str("わかりました。では、始めましょう。"),
    }
}

/// Handles the user's utterance `input` while a confirmation is pending.
/// A yes or a no ends the question with a user-tier reply (after a yes,
/// naming the task when `title` is known); anything else keeps it pending
/// and asks again with an alert. The utterance goes nowhere else.
pub fn answer_confirmation(
    pending: &mut Option<PendingConfirmation>,
    input: &str,
    title: &Option<String>,
    speech: &mut SpeechQueue,
    now: u64,
) -> (r: Answer)
    ensures
        r == answer_of(lower_of(trimmed(input@))),
        r == Answer::Yes ==> final(pending).is_none() && added(
            old(speech)@,
            final(speech)@,
            SpeechKind::User,
            accepted_text(
                match title {
                    Some(t) => Some(t@),
                    None => None,
                },
            ),
            now as int,
        ),
        r == Answer::No ==> final(pending).is_none() && added(
            old(speech)@,
            final(speech)@,
            SpeechKind::User,
            deferred_text(),
            now as int,
        ),
        r == Answer::Other ==> *final(pending) == *old(pending) && added(
            old(speech)@,
            final(speech)@,
            SpeechKind::Alert,
            reprompt_text(),
            now as int,
        ),
{
    let a = interpret_answer(input);
    match a {
        Answer::Yes => {
            *pending = None;
            speech.say_user(accepted_message(title), now);
        },
        Answer::No => {
            *pending = None;
            speech.say_user(String::from_str("わかりました。また後でお知らせしますね。"), now);
        },
        Answer::Other => {
            speech.say_alert(String::from_str("はいかいいえで答えてください。"), now);
        },
    }
    a
}

} // verus!
