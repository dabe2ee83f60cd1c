//! Logic over the task tree: lookups in pre-order (each task before its
//! sub-tasks, siblings in order), the due-date query, and updates.

use crate::models::{Date, DueTask, Task, TaskStatus, Visibility};
use crate::text::{chars_of, decimal, find_chars, has_substring, lower_of, push_decimal, to_lower};
use vstd::prelude::*;

verus! {

broadcast use vstd::std_specs::vec::group_vec_axioms, vstd::seq::group_seq_axioms;

/// The first task of `ts` in pre-order that satisfies `p`.
pub open spec fn first_preorder(ts: Seq<Task>, p: spec_fn(Task) -> bool) -> Option<Task>
    decreases ts,
{
    if ts.len() == 0 {
        None
    } else if p(ts[0]) {
        Some(ts[0])
    } else {
        match first_preorder(ts[0].subtasks@, p) {
            Some(t) => Some(t),
            None => first_preorder(ts.drop_first(), p),
        }
    }
}

/// An open task whose lowercase title contains `q`.
pub open spec fn fuzzy_hit(q: Seq<char>) -> spec_fn(Task) -> bool {
    |t: Task| !t.done && has_substring(lower_of(t.title@), q)
}

/// The task numbered `id`.
pub open spec fn has_id(id: u32) -> spec_fn(Task) -> bool {
    |t: Task| t.id == id
}

fn find_fuzzy_in(ts: &Vec<Task>, q: &Vec<char>) -> (r: Option<u32>)
    ensures
        r == match first_preorder(ts@, fuzzy_hit(q@)) {
            Some(t) => Some(t.id),
            None => None,
        },
    decreases ts,
{
    let n = ts.len();
    let mut i: usize = 0;
    assert(ts@.subrange(0, n as int) =~= ts@);
    while i < n
        invariant
            n == ts@.len(),
            i <= n,
            first_preorder(ts@, fuzzy_hit(q@)) == first_preorder(
                ts@.subrange(i as int, n as int),
                fuzzy_hit(q@),
            ),
        decreases n - i,
    {
        let t = &ts[i];
        assert(ts@.subrange(i as int, n as int).drop_first() =~= ts@.subrange(i + 1, n as int));
        let lowered = to_lower(t.title.as_str());
        let title = chars_of(lowered.as_str());
        if !t.done && find_chars(&title, q).is_some() {
            return Some(t.id);
        }
        if let Some(id) = find_fuzzy_in(&t.subtasks, q) {
            return Some(id);
        }
        i += 1;
    }
    None
}

/// The id of the first open task, in pre-order, whose title contains
/// `input` when both are compared in lowercase.
pub fn find_task_id_by_title_fuzzy(tasks: &Vec<Task>, input: &str) -> (r: Option<u32>)
    ensures
        r == match first_preorder(tasks@, fuzzy_hit(lower_of(input@))) {
            Some(t) => Some(t.id),
            None => None,
        },
{
    let lowered = to_lower(input);
    let q = chars_of(lowered.as_str());
    find_fuzzy_in(tasks, &q)
}

fn find_title_in(ts: &Vec<Task>, id: u32) -> (r: Option<String>)
    ensures
        match first_preorder(ts@, has_id(id)) {
            Some(t) => r matches Some(s) && s@ == t.title@,
            None => r is None,
        },
    decreases ts,
{
    let n = ts.len();
    let mut i: usize = 0;
    assert(ts@.subrange(0, n as int) =~= ts@);
    while i < n
        invariant
            n == ts@.len(),
            i <= n,
            first_preorder(ts@, has_id(id)) == first_preorder(
                ts@.subrange(i as int, n as int),
                has_id(id),
            ),
        decreases n - i,
    {
        let t = &ts[i];
        assert(ts@.subrange(i as int, n as int).drop_first() =~= ts@.subrange(i + 1, n as int));
        if t.id == id {
            return Some(t.title.clone());
        }
        let found = find_title_in(&t.subtasks, id);
        if found.is_some() {
            return found;
        }
        i += 1;
    }
    None
}

/// The title of the first task numbered `id`, in pre-order, if there is one.
pub fn get_task_title(tasks: &Vec<Task>, id: u32) -> (r: Option<String>)
    ensures
        match first_preorder(tasks@, has_id(id)) {
            Some(t) => r matches Some(s) && s@ == t.title@,
            None => r is None,
        },
{
    find_title_in(tasks, id)
}

/// `t` is open and due no later than day `limit`.
pub open spec fn due_by(t: Task, limit: int) -> bool {
    !t.done && (t.due_date matches Some(d) && d.days_from_ce <= limit)
}

/// What the due-date query reports of a task.
pub open spec fn due_entry(t: Task) -> (u32, Seq<char>, Date) {
    (t.id, t.title@, t.due_date->0)
}

/// The entries of the tasks of `ts` that are due by `limit`, in pre-order.
pub open spec fn due_entries(ts: Seq<Task>, limit: int) -> Seq<(u32, Seq<char>, Date)>
    decreases ts,
{
    if ts.len() == 0 {
        Seq::empty()
    } else {
        (if due_by(ts[0], limit) {
            seq![due_entry(ts[0])]
        } else {
            Seq::empty()
        }) + due_entries(ts[0].subtasks@, limit) + due_entries(ts.drop_first(), limit)
    }
}

/// The entries that a list of due tasks holds.
pub open spec fn entries_of(v: Seq<DueTask>) -> Seq<(u32, Seq<char>, Date)> {
    v.map_values(|d: DueTask| (d.id, d.title@, d.due_date))
}

fn collect_due(ts: &Vec<Task>, limit: i64, out: &mut Vec<DueTask>)
    ensures
        entries_of(final(out)@) == entries_of(old(out)@) + due_entries(ts@, limit as int),
    decreases ts,
{
    let n = ts.len();
    let mut i: usize = 0;
    assert(ts@.subrange(0, n as int) =~= ts@);
    assert(entries_of(out@) + due_entries(ts@, limit as int) =~= entries_of(old(out)@)
        + due_entries(ts@, limit as int));
    while i < n
        invariant
            n == ts@.len(),
            i <= n,
            entries_of(out@) + due_entries(ts@.subrange(i as int, n as int), limit as int)
                == entries_of(old(out)@) + due_entries(ts@, limit as int),
        decreases n - i,
    {
        let t = &ts[i];
        let ghost before = entries_of(out@);
        let ghost rest = ts@.subrange(i as int, n as int);
        assert(rest.drop_first() =~= ts@.subrange(i + 1, n as int));
        assert(rest[0] == ts@[i as int]);
        let ghost own: Seq<(u32, Seq<char>, Date)> = if due_by(ts@[i as int], limit as int) {
            seq![due_entry(ts@[i as int])]
        } else {
            Seq::empty()
        };
        if !t.done {
            if let Some(d) = t.due_date {
                if d.days_from_ce as i64 <= limit {
                    out.push(DueTask { id: t.id, title: t.title.clone(), due_date: d });
                }
            }
        }
        assert(entries_of(out@) =~= before + own);
        let ghost mid = entries_of(out@);
        collect_due(&t.subtasks, limit, out);
        assert(entries_of(out@) + due_entries(ts@.subrange(i + 1, n as int), limit as int)
            =~= before + (own + due_entries(ts@[i as int].subtasks@, limit as int)
            + due_entries(ts@.subrange(i + 1, n as int), limit as int)));
        i += 1;
    }
    assert(ts@.subrange(n as int, n as int) =~= Seq::<Task>::empty());
    assert(entries_of(out@) + Seq::empty() =~= entries_of(out@));
}

/// The open tasks, sub-tasks included and in pre-order, whose due date is
/// on or before `days` days after `today` (overdue ones too).
pub fn find_due_within_days(tasks: &Vec<Task>, today: Date, days: u32) -> (r: Vec<DueTask>)
    ensures
        entries_of(r@) == due_entries(tasks@, today.days_from_ce + days),
{
    let mut out: Vec<DueTask> = Vec::new();
    let limit = today.days_from_ce as i64 + days as i64;
    collect_due(tasks, limit, &mut out);
    assert(entries_of(Seq::<DueTask>::empty()) =~= Seq::empty());
    assert(Seq::<(u32, Seq<char>, Date)>::empty() + due_entries(tasks@, limit as int)
        =~= due_entries(tasks@, limit as int));
    out
}

/// The largest id among the top-level tasks of `ts`, 0 when there are none.
pub open spec fn max_top_id(ts: Seq<Task>) -> nat
    decreases ts.len(),
{
    if ts.len() == 0 {
        0
    } else {
        let m = max_top_id(ts.drop_last());
        if ts.last().id > m {
            ts.last().id as nat
        } else {
            m
        }
    }
}

/// `t` is a fresh, open, top-level task numbered `id` and titled `title`.
pub open spec fn is_new_task(t: Task, id: u32, title: Seq<char>) -> bool {
    &&& t.id == id
    &&& t.title@ == title
    &&& !t.done
    &&& t.due_date is None
    &&& t.priority is None
    &&& t.status == TaskStatus::NotStarted
    &&& t.visibility == Visibility::Visible
    &&& t.notes is None
    &&& t.tags@.len() == 0
    &&& t.subtasks@.len() == 0
}

/// Appends a new open task titled `title`, numbered one above the largest
/// top-level id, and returns its id. When that id would not fit in 32 bits
/// nothing changes and `None` is returned.
pub fn add_task(tasks: &mut Vec<Task>, title: &str) -> (r: Option<u32>)
    ensures
        match r {
            Some(id) => {
                &&& id == max_top_id(old(tasks)@) + 1
                &&& final(tasks)@.len() == old(tasks)@.len() + 1
                &&& final(tasks)@.drop_last() == old(tasks)@
                &&& is_new_task(final(tasks)@.last(), id, title@)
            },
            None => max_top_id(old(tasks)@) == u32::MAX && final(tasks)@ == old(tasks)@,
        },
{
    let n = tasks.len();
    let mut m: u32 = 0;
    let mut i: usize = 0;
    while i < n
        invariant
            n == tasks@.len(),
            i <= n,
            m == max_top_id(tasks@.subrange(0, i as int)),
        decreases n - i,
    {
        assert(tasks@.subrange(0, i + 1).drop_last() =~= tasks@.subrange(0, i as int));
        if tasks[i].id > m {
            m = tasks[i].id;
        }
        i += 1;
    }
    assert(tasks@.subrange(0, n as int) =~= tasks@);
    if m == u32::MAX {
        return None;
    }
    let id = m + 1;
    tasks.push(
        Task {
            id,
            title: String::from_str(title),
            done: false,
            due_date: None,
            priority: None,
            status: TaskStatus::NotStarted,
            visibility: Visibility::Visible,
            notes: None,
            tags: Vec::new(),
            subtasks: Vec::new(),
            extensions: serde_json::Map::new(),
        },
    );
    assert(tasks@.drop_last() =~= old(tasks)@);
    Some(id)
}

/// The reply after a task titled `title` was added.
pub open spec fn added_reply_text(title: Seq<char>) -> Seq<char> {
    "タスクを「"@ + title + "」を登録しました。"@
}

/// Builds the reply after a task titled `title` was added.
pub fn task_added_reply(title: &str) -> (r: String)
    ensures
        r@ == added_reply_text(title@),
{
    let mut r = String::from_str("タスクを「");
    r.append(title);
    r.append("」を登録しました。");
    r
}

/// The reply after an attempt to complete task `id`.
pub open spec fn done_reply_text(id: u32, found: bool) -> Seq<char> {
    if found {
        "タスク "@ + decimal(id as nat) + " を完了にしました。"@
    } else {
        "タスク "@ + decimal(id as nat) + " は見つかりませんでした。"@
    }
}

/// Builds the reply after an attempt to complete task `id`.
pub fn task_done_reply(id: u32, found: bool) -> (r: String)
    ensures
        r@ == done_reply_text(id, found),
{
    let mut r = String::from_str("タスク ");
    push_decimal(&mut r, id as u64);
    if found {
        r.append(" を完了にしました。");
    } else {
        r.append(" は見つかりませんでした。");
    }
    r
}

/// The bullet lines of the open top-level tasks of `ts`, in order.
pub open spec fn open_lines(ts: Seq<Task>) -> Seq<Seq<char>>
    decreases ts.len(),
{
    if ts.len() == 0 {
        Seq::empty()
    } else if ts.last().done {
        open_lines(ts.drop_last())
    } else {
        open_lines(ts.drop_last()).push("・"@ + ts.last().title@)
    }
}

/// `lines` joined with a newline between each two.
pub open spec fn joined(lines: Seq<Seq<char>>) -> Seq<char>
    decreases lines.len(),
{
    if lines.len() == 0 {
        Seq::empty()
    } else if lines.len() == 1 {
        lines[0]
    } else {
        joined(lines.drop_last()) + "\n"@ + lines.last()
    }
}

/// The task summary handed to the language model with a chat turn.
pub open spec fn summary_text(ts: Seq<Task>) -> Seq<char> {
    if ts.len() == 0 {
        "現在、登録されているタスクはありません。"@
    } else {
        "現在の未完了タスク一覧:\n"@ + joined(open_lines(ts))
    }
}

/// Summarises the open top-level tasks, one bullet line each.
pub fn summarize_tasks_for_prompt(tasks: &Vec<Task>) -> (r: String)
    ensures
        r@ == summary_text(tasks@),
{
    let n = tasks.len();
    if n == 0 {
        return String::from_str("現在、登録されているタスクはありません。");
    }
    let mut body = String::new();
    let mut count: usize = 0;
    let mut i: usize = 0;
    proof {
        reveal_strlit("\n");
    }
    while i < n
        invariant
            n == tasks@.len(),
            i <= n,
            count == open_lines(tasks@.subrange(0, i as int)).len(),
            body@ == joined(open_lines(tasks@.subrange(0, i as int))),
            count <= i,
        decreases n - i,
    {
        let t = &tasks[i];
        assert(tasks@.subrange(0, i + 1).drop_last() =~= tasks@.subrange(0, i as int));
        if !t.done {
            let ghost prev = open_lines(tasks@.subrange(0, i as int));
            if count > 0 {
                body.append("\n");
            }
            body.append("・");
            body.append(t.title.as_str());
            count += 1;
            let ghost now_lines = prev.push("・"@ + t.title@);
            assert(now_lines.drop_last() =~= prev);
            assert(body@ =~= joined(now_lines));
        }
        i += 1;
    }
    assert(tasks@.subrange(0, n as int) =~= tasks@);
    let mut r = String::from_str("現在の未完了タスク一覧:\n");
    r.append(body.as_str());
    r
}

/// The number of open top-level tasks of `ts`.
pub open spec fn open_count(ts: Seq<Task>) -> nat
    decreases ts.len(),
{
    if ts.len() == 0 {
        0
    } else if ts.last().done {
        open_count(ts.drop_last())
    } else {
        open_count(ts.drop_last()) + 1
    }
}

/// Counts the open top-level tasks.
pub fn count_open(tasks: &[Task]) -> (r: usize)
    ensures
        r == open_count(tasks@),
{
    let n = tasks.len();
    let mut c: usize = 0;
    let mut i: usize = 0;
    while i < n
        invariant
            n == tasks@.len(),
            i <= n,
            c == open_count(tasks@.subrange(0, i as int)),
            c <= i,
        decreases n - i,
    {
        assert(tasks@.subrange(0, i + 1).drop_last() =~= tasks@.subrange(0, i as int));
        if !tasks[i].done {
            c += 1;
        }
        i += 1;
    }
    assert(tasks@.subrange(0, n as int) =~= tasks@);
    c
}

/// `t` marked done, with its status set to completed.
pub open spec fn completed(t: Task) -> Task {
    Task { done: true, status: TaskStatus::Completed, ..t }
}

/// `b` is `a` with the first task numbered `id` in pre-order completed, and
/// nothing else changed.
pub open spec fn marked_done(a: Seq<Task>, b: Seq<Task>, id: u32) -> bool
    decreases a,
{
    if a.len() == 0 {
        b.len() == 0
    } else {
        &&& b.len() == a.len()
        &&& if a[0].id == id {
            b[0] == completed(a[0]) && b.drop_first() == a.drop_first()
        } else if first_preorder(a[0].subtasks@, has_id(id)) is Some {
            &&& b[0] == Task { subtasks: b[0].subtasks, ..a[0] }
            &&& marked_done(a[0].subtasks@, b[0].subtasks@, id)
            &&& b.drop_first() == a.drop_first()
        } else {
            b[0] == a[0] && marked_done(a.drop_first(), b.drop_first(), id)
        }
    }
}

/// Completes the first task numbered `task_id`, in pre-order; whether there
/// was one.
pub fn mark_task_done(tasks: &mut Vec<Task>, task_id: u32) -> (r: bool)
    ensures
        r == first_preorder(old(tasks)@, has_id(task_id)) is Some,
        marked_done(old(tasks)@, final(tasks)@, task_id),
    decreases *old(tasks),
{
    let n = tasks.len();
    let ghost a = tasks@;
    let mut i: usize = 0;
    assert(a.subrange(0, n as int) =~= a);
    assert forall|b: Seq<Task>| marked_done(a.subrange(0, n as int), b, task_id) implies marked_done(
        a,
        a.subrange(0, 0) + b,
        task_id,
    ) by {
        assert(a.subrange(0, 0) + b =~= b);
    }
    while i < n
        invariant
            n == a.len(),
            a == old(tasks)@,
            tasks@ == a,
            i <= n,
            first_preorder(a, has_id(task_id)) == first_preorder(
                a.subrange(i as int, n as int),
                has_id(task_id),
            ),
            forall|b: Seq<Task>| #[trigger]
                marked_done(a.subrange(i as int, n as int), b, task_id) ==> marked_done(
                    a,
                    a.subrange(0, i as int) + b,
                    task_id,
                ),
        decreases n - i,
    {
        let ghost rest = a.subrange(i as int, n as int);
        assert(rest.drop_first() =~= a.subrange(i + 1, n as int));
        assert(rest[0] == a[i as int]);
        if tasks[i].id == task_id {
            let mut t = tasks.remove(i);
            t.done = true;
            t.status = TaskStatus::Completed;
            tasks.insert(i, t);
            let ghost b = seq![completed(a[i as int])] + a.subrange(i + 1, n as int);
            assert(b.drop_first() =~= rest.drop_first());
            assert(marked_done(rest, b, task_id));
            assert(tasks@ =~= a.subrange(0, i as int) + b);
            return true;
        }
        if find_title_in(&tasks[i].subtasks, task_id).is_some() {
            let mut t = tasks.remove(i);
            let found = mark_task_done(&mut t.subtasks, task_id);
            tasks.insert(i, t);
            let ghost b = seq![t] + a.subrange(i + 1, n as int);
            assert(b.drop_first() =~= rest.drop_first());
            assert(b[0] == t);
            assert(marked_done(rest, b, task_id));
            assert(tasks@ =~= a.subrange(0, i as int) + b);
            return true;
        }
        assert forall|b: Seq<Task>| #[trigger]
            marked_done(a.subrange(i + 1, n as int), b, task_id) implies marked_done(
            a,
            a.subrange(0, i + 1) + b,
            task_id,
        ) by {
            let b2 = seq![a[i as int]] + b;
            assert(b2.drop_first() =~= b);
            assert(marked_done(rest, b2, task_id));
            assert(a.subrange(0, i as int) + b2 =~= a.subrange(0, i + 1) + b);
        }
        i += 1;
    }
    assert(a.subrange(n as int, n as int) =~= Seq::<Task>::empty());
    assert(marked_done(Seq::<Task>::empty(), Seq::<Task>::empty(), task_id));
    assert(a.subrange(0, n as int) + Seq::<Task>::empty() =~= a);
    false
}

/// One line of the task listing: indentation, id, title, and a check mark
/// for a done task.
pub open spec fn task_line(t: Task, indent: Seq<char>) -> Seq<char> {
    indent + decimal(t.id as nat) + ": "@ + t.title@ + " ["@ + (if t.done {
        "✅"@
    } else {
        "　"@
    }) + "]"@
}

/// The listing of `ts` in pre-order; each level of nesting indents by two
/// more spaces.
pub open spec fn listing(ts: Seq<Task>, indent: Seq<char>) -> Seq<Seq<char>>
    decreases ts,
{
    if ts.len() == 0 {
        Seq::empty()
    } else {
        seq![task_line(ts[0], indent)] + listing(ts[0].subtasks@, indent + "  "@) + listing(
            ts.drop_first(),
            indent,
        )
    }
}

/// The characters of each string of `v`.
pub open spec fn texts_of(v: Seq<String>) -> Seq<Seq<char>> {
    v.map_values(|s: String| s@)
}

fn line_of(t: &Task, indent: &str) -> (r: String)
    ensures
        r@ == task_line(*t, indent@),
{
    let mut r = String::from_str(indent);
    push_decimal(&mut r, t.id as u64);
    r.append(": ");
    r.append(t.title.as_str());
    r.append(" [");
    if t.done {
        r.append("✅");
    } else {
        r.append("　");
    }
    r.append("]");
    r
}

fn collect_lines(ts: &Vec<Task>, indent: &str, out: &mut Vec<String>)
    ensures
        texts_of(final(out)@) == texts_of(old(out)@) + listing(ts@, indent@),
    decreases ts,
{
    let n = ts.len();
    let mut i: usize = 0;
    let deeper = String::from_str(indent).concat("  ");
    assert(ts@.subrange(0, n as int) =~= ts@);
    assert(texts_of(out@) + listing(ts@, indent@) =~= texts_of(old(out)@) + listing(
        ts@,
        indent@,
    ));
    while i < n
        invariant
            n == ts@.len(),
            i <= n,
            deeper@ == indent@ + "  "@,
            texts_of(out@) + listing(ts@.subrange(i as int, n as int), indent@) == texts_of(
                old(out)@,
            ) + listing(ts@, indent@),
        decreases n - i,
    {
        let t = &ts[i];
        let ghost before = texts_of(out@);
        let ghost rest = ts@.subrange(i as int, n as int);
        assert(rest.drop_first() =~= ts@.subrange(i + 1, n as int));
        assert(rest[0] == ts@[i as int]);
        out.push(line_of(t, indent));
        assert(texts_of(out@) =~= before + seq![task_line(ts@[i as int], indent@)]);
        collect_lines(&t.subtasks, deeper.as_str(), out);
        assert(texts_of(out@) + listing(ts@.subrange(i + 1, n as int), indent@) =~= before + (
        seq![task_line(ts@[i as int], indent@)] + listing(ts@[i as int].subtasks@, indent@ + "  "@)
            + listing(ts@.subrange(i + 1, n as int), indent@)));
        i += 1;
    }
    assert(ts@.subrange(n as int, n as int) =~= Seq::<Task>::empty());
    assert(texts_of(out@) + Seq::empty() =~= texts_of(out@));
}

/// The lines that list all tasks, sub-tasks indented under their parent.
pub fn task_list_lines(tasks: &Vec<Task>) -> (r: Vec<String>)
    ensures
        texts_of(r@) == listing(tasks@, Seq::empty()),
{
    let mut out: Vec<String> = Vec::new();
    let indent = "";
    proof {
        reveal_strlit("");
    }
    collect_lines(tasks, indent, &mut out);
    assert(indent@ =~= Seq::<char>::empty());
    assert(texts_of(Seq::<String>::empty()) =~= Seq::empty());
    assert(Seq::<Seq<char>>::empty() + listing(tasks@, Seq::empty()) =~= listing(
        tasks@,
        Seq::empty(),
    ));
    out
}

/// Which file holds the task list. The first path set wins; until one is
/// set, `tasks.json` is used.
pub struct TaskFile {
    path: Option<String>,
}

impl View for TaskFile {
    type V = Option<Seq<char>>;

    closed spec fn view(&self) -> Option<Seq<char>> {
        match self.path {
            Some(p) => Some(p@),
            None => None,
        }
    }
}

impl TaskFile {
    /// No path set yet.
    pub fn new() -> (r: Self)
        ensures
            r@ is None,
    {
        TaskFile { path: None }
    }
}

/// Sets the task file's path unless one was already set.
pub fn set_task_file(config: &mut TaskFile, file: &str)
    ensures
        old(config)@ is None ==> final(config)@ == Some(file@),
        old(config)@ is Some ==> final(config)@ == old(config)@,
{
    if config.path.is_none() {
        config.path = Some(String::from_str(file));
    }
}

/// The path of the task file: the one set, else `tasks.json`.
pub fn get_task_file(config: &TaskFile) -> (r: String)
    ensures
        r@ == match config@ {
            Some(p) => p,
            None => "tasks.json"@,
        },
{
    match &config.path {
        Some(p) => p.clone(),
        None => String::from_str("tasks.json"),
    }
}

} // verus!
