//! What the assistant says on its own: the morning greeting and the
//! periodic time announcement.

use crate::models::Task;
use crate::tasks::{count_open, open_count};
use crate::text::{decimal, digit_char, push_decimal};
use vstd::prelude::*;

verus! {

/// The greeting for a list with `pending` open top-level tasks.
pub open spec fn greeting_text(pending: nat) -> Seq<char> {
    if pending == 0 {
        "おはようございます。すべてのタスクが完了しています。今日もいい日になりますように。"@
    } else {
        "おはようございます。現在 "@ + decimal(pending) + " 件のタスクがあります。"@
    }
}

/// The morning greeting, which counts the open top-level tasks.
pub fn make_greeting_message(tasks: &[Task]) -> (r: String)
    ensures
        r@ == greeting_text(open_count(tasks@)),
{
    let pending = count_open(tasks);
    if pending == 0 {
        String::from_str(
            "おはようございます。すべてのタスクが完了しています。今日もいい日になりますように。",
        )
    } else {
        let mut r = String::from_str("おはようございます。現在 ");
        push_decimal(&mut r, pending as u64);
        r.append(" 件のタスクがあります。");
        r
    }
}

/// `n`, below one hundred, as two decimal digits.
pub open spec fn two_digits(n: nat) -> Seq<char> {
    seq![digit_char(n / 10), digit_char(n % 10)]
}

/// The time announcement for `hour`:`minute`.
pub open spec fn time_text(hour: nat, minute: nat) -> Seq<char> {
    "ただいま、"@ + two_digits(hour) + "時"@ + two_digits(minute) + "分です。水分補給と休憩も忘れずに。"@
}

fn push_two_digits(out: &mut String, n: u32)
    requires
        n < 100,
    ensures
        final(out)@ == old(out)@ + two_digits(n as nat),
{
    let digits = "0123456789";
    proof {
        reveal_strlit("0123456789");
    }
    let hi = (n / 10) as usize;
    let lo = (n % 10) as usize;
    out.append(digits.substring_char(hi, hi + 1));
    out.append(digits.substring_char(lo, lo + 1));
    assert(out@ =~= old(out)@ + two_digits(n as nat));
}

/// The periodic announcement of the local time, with a reminder to rest.
pub fn time_announcement(hour: u32, minute: u32) -> (r: String)
    requires
        hour < 24,
        minute < 60,
    ensures
        r@ == time_text(hour as nat, minute as nat),
{
    let mut r = String::from_str("ただいま、");
    push_two_digits(&mut r, hour);
    r.append("時");
    push_two_digits(&mut r, minute);
    r.append("分です。水分補給と休憩も忘れずに。");
    r
}

} // verus!
