//! Routing of one line of user input, before any language-model call.

use crate::chat::{detect_special_command, special_command_of};
use crate::text::{has_prefix, same_text, strip_prefix, trim, trimmed};
use vstd::prelude::*;

verus! {

/// What the dispatch loop does with one line of input.
#[derive(Debug)]
pub enum Route {
    /// Stop the loop.
    Exit,
    /// A confirmation is pending: the line answers it and goes nowhere else.
    Answer,
    /// Add a task with this title.
    AddTask(String),
    /// Show the task list.
    List,
    /// Mark the task with this id done.
    Done(u32),
    /// `done` was followed by something that is not a task id.
    BadTaskId,
    /// Hand the line to the language classifier.
    Classify,
}

/// The value of the decimal digits `s`.
pub open spec fn digits_value(s: Seq<char>) -> int
    decreases s.len(),
{
    if s.len() == 0 {
        0
    } else {
        digits_value(s.drop_last()) * 10 + (s.last() as int - '0' as int)
    }
}

/// Every character of `s` is an ASCII digit.
pub open spec fn all_digits(s: Seq<char>) -> bool {
    forall|i: int| 0 <= i < s.len() ==> '0' <= #[trigger] s[i] <= '9'
}

/// `s` without one leading `+`, if it has one.
pub open spec fn unsigned_body(s: Seq<char>) -> Seq<char> {
    if s.len() > 0 && s[0] == '+' {
        s.drop_first()
    } else {
        s
    }
}

/// What `str::parse::<u32>` accepts: an optional `+`, then one or more ASCII
/// digits whose value fits in 32 bits.
pub open spec fn parsed_u32(s: Seq<char>) -> Option<u32> {
    let b = unsigned_body(s);
    if b.len() > 0 && all_digits(b) && digits_value(b) <= u32::MAX {
        Some(digits_value(b) as u32)
    } else {
        None
    }
}

proof fn lemma_digits_value_bounds(s: Seq<char>, k: int)
    requires
        all_digits(s),
        0 <= k <= s.len(),
    ensures
        0 <= digits_value(s.subrange(0, k)) <= digits_value(s),
    decreases s.len() - k,
{
    if k < s.len() {
        lemma_digits_value_bounds(s, k + 1);
        assert(s.subrange(0, k + 1).drop_last() =~= s.subrange(0, k));
        assert(digits_value(s.subrange(0, k)) >= 0) by {
            lemma_digits_value_nonneg(s.subrange(0, k));
        }
    } else {
        assert(s.subrange(0, k) =~= s);
        lemma_digits_value_nonneg(s);
    }
}

proof fn lemma_digits_value_nonneg(s: Seq<char>)
    requires
        all_digits(s),
    ensures
        digits_value(s) >= 0,
    decreases s.len(),
{
    if s.len() > 0 {
        assert(all_digits(s.drop_last()));
        lemma_digits_value_nonneg(s.drop_last());
    }
}

/// Reads a task id as `str::parse::<u32>` does.
pub fn parse_u32(s: &str) -> (r: Option<u32>)
    ensures
        r == parsed_u32(s@),
{
    let cs = crate::text::chars_of(s);
    let n = cs.len();
    let start: usize = if n > 0 && cs[0] == '+' {
        1
    } else {
        0
    };
    let ghost b = unsigned_body(s@);
    assert(b =~= s@.subrange(start as int, n as int));
    if start == n {
        return None;
    }
    let mut v: u64 = 0;
    let mut i: usize = start;
    while i < n
        invariant
            cs@ == s@,
            n == s@.len(),
            start <= i <= n,
            b == s@.subrange(start as int, n as int),
            b == unsigned_body(s@),
            all_digits(b.subrange(0, i - start)),
            v as int == digits_value(b.subrange(0, i - start)),
            v <= u32::MAX,
        decreases n - i,
    {
        let c = cs[i];
        if !('0' <= c && c <= '9') {
            assert(b[(i - start) as int] == c);
            assert(!all_digits(b));
            return None;
        }
        let d = (c as u32 - '0' as u32) as u64;
        assert(b.subrange(0, i + 1 - start).drop_last() =~= b.subrange(0, i - start));
        assert(b.subrange(0, i + 1 - start).last() == c);
        assert(digits_value(b.subrange(0, i + 1 - start)) == v * 10 + d);
        v = v * 10 + d;
        if v > u32::MAX as u64 {
            proof {
                if all_digits(b) {
                    lemma_digits_value_bounds(b, (i + 1 - start) as int);
                }
            }
            return None;
        }
        i += 1;
    }
    assert(b.subrange(0, n - start) =~= b);
    Some(v as u32)
}

/// How a line `line` (before trimming) is routed, given whether a
/// confirmation is pending.
pub open spec fn route_of(pending: bool, line: Seq<char>) -> Route {
    let s = trimmed(line);
    if s == "exit"@ {
        Route::Exit
    } else if pending {
        Route::Answer
    } else if has_prefix(s, "todo "@) {
        Route::AddTask(arbitrary())
    } else if s == "list"@ {
        Route::List
    } else if has_prefix(s, "done "@) {
        match parsed_u32(s.subrange(5, s.len() as int)) {
            Some(id) => Route::Done(id),
            None => Route::BadTaskId,
        }
    } else if special_command_of(s) is Some {
        Route::List
    } else {
        Route::Classify
    }
}

/// Routes one line of input. `exit` always stops the loop; otherwise, while
/// a confirmation is pending the line only answers it. Then come the manual
/// commands `todo <title>`, `list`, `done <id>`, the phrases that ask for the
/// list, and last the language classifier.
pub fn route_input(pending: bool, line: &str) -> (r: Route)
    ensures
        ({
            let s = trimmed(line@);
            match route_of(pending, line@) {
                Route::AddTask(_) => r matches Route::AddTask(t) && t@ == s.subrange(
                    5,
                    s.len() as int,
                ),
                other => r == other,
            }
        }),
{
    let s = trim(line);
    proof {
        reveal_strlit("todo ");
        reveal_strlit("done ");
    }
    if same_text(s.as_str(), "exit") {
        return Route::Exit;
    }
    if pending {
        return Route::Answer;
    }
    if let Some(title) = strip_prefix(s.as_str(), "todo ") {
        return Route::AddTask(title);
    }
    if same_text(s.as_str(), "list") {
        return Route::List;
    }
    if let Some(rest) = strip_prefix(s.as_str(), "done ") {
        return match parse_u32(rest.as_str()) {
            Some(id) => Route::Done(id),
            None => Route::BadTaskId,
        };
    }
    if detect_special_command(s.as_str()).is_some() {
        return Route::List;
    }
    Route::Classify
}

/// While a confirmation is pending, no line but `exit` reaches the task
/// commands or the classifier: it is taken as an answer.
pub proof fn lemma_pending_gates_input(line: Seq<char>)
    requires
        trimmed(line) != "exit"@,
    ensures
        route_of(true, line) == Route::Answer,
{
}

} // verus!
