//! The due-task scanner: on each tick, at most one reminder, for the first
//! candidate whose per-task cooldown has run out.

use crate::models::{date_text, date_text_of, Date, DueTask};
use crate::speech::{added, SpeechKind, SpeechQueue};
use std::collections::HashMap;
use vstd::prelude::*;

verus! {

broadcast use vstd::std_specs::hash::group_hash_axioms;

/// The outstanding "do it now?" question of a reminder.
#[derive(Debug, Clone, Copy, PartialEq, Eq, Structural)]
pub struct PendingConfirmation {
    pub task_id: u32,
    pub due_date: Date,
}

/// A task last announced at `notified[id]` may be announced again at `now`:
/// it never was, or at least `cooldown` has passed since.
pub open spec fn eligible(notified: Map<u32, u64>, id: u32, now: int, cooldown: int) -> bool {
    !notified.contains_key(id) || crate::speech::elapsed(now, notified[id] as int) >= cooldown
}

/// The reminder spoken for a task titled `title` due on the day written `date`.
pub open spec fn reminder_text(title: Seq<char>, date: Seq<char>) -> Seq<char> {
    "「"@ + title + "」の期限は"@ + date + "です。今やりますか？はいかいいえで答えてください。"@
}

/// The abstract state of a scanner.
pub struct ScannerModel {
    pub notified: Map<u32, u64>,
    pub cooldown: int,
}

/// Remembers when each task was last announced.
pub struct DueTaskScanner {
    notified: HashMap<u32, u64>,
    cooldown: u64,
}

impl View for DueTaskScanner {
    type V = ScannerModel;

    closed spec fn view(&self) -> ScannerModel {
        ScannerModel { notified: self.notified@, cooldown: self.cooldown as int }
    }
}

/// Builds the reminder for `title` from the written due date `date_text`.
pub fn reminder_from(title: &str, date_text: &str) -> (r: String)
    ensures
        r@ == reminder_text(title@, date_text@),
{
    let mut r = String::from_str("「");
    r.append(title);
    r.append("」の期限は");
    r.append(date_text);
    r.append("です。今やりますか？はいかいいえで答えてください。");
    r
}

/// Builds the reminder for `title`, due on `date`.
pub fn reminder(title: &str, date: Date) -> (r: String)
    ensures
        r@ == reminder_text(title@, date_text_of(date.days_from_ce as int)),
{
    let d = date_text(date);
    reminder_from(title, d.as_str())
}

impl DueTaskScanner {
    /// A scanner that has announced nothing, with the given re-announcement
    /// cooldown.
    pub fn new(cooldown: u64) -> (r: Self)
        ensures
            r@.notified == Map::<u32, u64>::empty(),
            r@.cooldown == cooldown,
    {
        DueTaskScanner { notified: HashMap::new(), cooldown }
    }

    /// Whether the task `id` may be announced at `now`.
    pub fn should_notify(&self, id: u32, now: u64) -> (r: bool)
        ensures
            r == eligible(self@.notified, id, now as int, self@.cooldown),
    {
        match self.notified.get(&id) {
            Some(t) => {
                let e: u64 = if now >= *t {
                    now - *t
                } else {
                    0
                };
                e >= self.cooldown
            },
            None => true,
        }
    }

    /// One scan tick at `now` over the due `candidates`, in their order.
    /// While a confirmation is pending nothing happens. Otherwise the first
    /// eligible candidate, if any, is recorded as announced at `now`, its
    /// reminder is submitted as an alert, and it becomes the pending
    /// confirmation; its index is returned.
    pub fn scan(
        &mut self,
        candidates: &Vec<DueTask>,
        pending: &mut Option<PendingConfirmation>,
        speech: &mut SpeechQueue,
        now: u64,
    ) -> (r: Option<usize>)
        ensures
            old(pending).is_some() ==> {
                &&& r is None
                &&& final(self)@ == old(self)@
                &&& *final(pending) == *old(pending)
                &&& final(speech)@ == old(speech)@
            },
            old(pending).is_none() ==> match r {
                None => {
                    &&& forall|k: int|
                        0 <= k < candidates@.len() ==> !eligible(
                            old(self)@.notified,
                            #[trigger] candidates@[k].id,
                            now as int,
                            old(self)@.cooldown,
                        )
                    &&& final(self)@ == old(self)@
                    &&& final(pending).is_none()
                    &&& final(speech)@ == old(speech)@
                },
                Some(k) => {
                    let c = candidates@[k as int];
                    &&& k < candidates@.len()
                    &&& eligible(old(self)@.notified, c.id, now as int, old(self)@.cooldown)
                    &&& forall|j: int|
                        0 <= j < k ==> !eligible(
                            old(self)@.notified,
                            #[trigger] candidates@[j].id,
                            now as int,
                            old(self)@.cooldown,
                        )
                    &&& final(self)@.notified == old(self)@.notified.insert(c.id, now)
                    &&& final(self)@.cooldown == old(self)@.cooldown
                    &&& *final(pending) == Some(
                        PendingConfirmation { task_id: c.id, due_date: c.due_date },
                    )
                    &&& added(
                        old(speech)@,
                        final(speech)@,
                        SpeechKind::Alert,
                        reminder_text(c.title@, date_text_of(c.due_date.days_from_ce as int)),
                        now as int,
                    )
                },
            },
    {
        if pending.is_some() {
            return None;
        }
        let mut i: usize = 0;
        while i < candidates.len()
            invariant
                i <= candidates@.len(),
                old(pending).is_none(),
                *pending == *old(pending),
                self@ == old(self)@,
                speech@ == old(speech)@,
                forall|j: int|
                    0 <= j < i ==> !eligible(
                        self@.notified,
                        #[trigger] candidates@[j].id,
                        now as int,
                        self@.cooldown,
                    ),
            decreases candidates@.len() - i,
        {
            let c = &candidates[i];
            if self.should_notify(c.id, now) {
                self.notified.insert(c.id, now);
                let text = reminder(c.title.as_str(), c.due_date);
                speech.say_alert(text, now);
                *pending = Some(PendingConfirmation { task_id: c.id, due_date: c.due_date });
                return Some(i);
            }
            i += 1;
        }
        None
    }
}

/// A task announced at `t` is not announced again before `t + cooldown`
/// (for instance at `t + cooldown / 2`), and is eligible again from
/// `t + cooldown` on.
pub proof fn lemma_notification_cooldown(
    notified: Map<u32, u64>,
    id: u32,
    t: u64,
    cooldown: int,
    now: int,
)
    requires
        cooldown >= 0,
    ensures
        t <= now < t + cooldown ==> !eligible(notified.insert(id, t), id, now, cooldown),
        now >= t + cooldown ==> eligible(notified.insert(id, t), id, now, cooldown),
{
}

} // verus!
