//! Speech arbitration: three FIFO tiers (User > Alert > Monologue) drained
//! by a single consumer, with suppression of idle chatter.
//!
//! Times are milliseconds of a monotonic clock chosen by the caller.

use std::collections::VecDeque;
use vstd::prelude::*;

verus! {

/// Priority tier of an utterance; `User` is served first, `Monologue` last.
#[derive(Debug, Clone, Copy, PartialEq, Eq, Structural)]
pub enum SpeechKind {
    User,
    Alert,
    Monologue,
}

/// One utterance waiting to be spoken.
#[derive(Debug, Clone)]
pub struct SpeechRequest {
    pub kind: SpeechKind,
    pub text: String,
}

/// What the consumer should do after one selection.
#[derive(Debug)]
pub enum Step {
    /// Hand this request to the audio sink.
    Speak(SpeechRequest),
    /// A monologue was dequeued and suppressed; it is dropped, never spoken.
    Discard(String),
    /// Every tier is empty; wait for the next submission.
    Idle,
}

/// The abstract state of a `SpeechQueue`.
pub struct QueueModel {
    pub user: Seq<String>,
    pub alert: Seq<String>,
    pub monologue: Seq<String>,
    pub last_user_action: Option<int>,
    pub last_monologue_spoken: Option<int>,
    pub monologue_cooldown: int,
    pub suppress_after_user: int,
}

/// Time from `since` to `now`, zero when the clock reads earlier than `since`.
pub open spec fn elapsed(now: int, since: int) -> int {
    if now >= since {
        now - since
    } else {
        0
    }
}

/// The event recorded at `since` happened less than `window` before `now`.
pub open spec fn within(now: int, since: Option<int>, window: int) -> bool {
    match since {
        Some(t) => elapsed(now, t) < window,
        None => false,
    }
}

/// A monologue selected at `now` is dropped: the user acted recently, or a
/// monologue was spoken within the cooldown.
pub open spec fn monologue_suppressed(m: QueueModel, now: int) -> bool {
    within(now, m.last_user_action, m.suppress_after_user) || within(
        now,
        m.last_monologue_spoken,
        m.monologue_cooldown,
    )
}

/// The state after `text` of tier `kind` is submitted at `now`. A user
/// submission also records the user action at that moment.
pub open spec fn submitted(m: QueueModel, kind: SpeechKind, text: String, now: int) -> QueueModel {
    match kind {
        SpeechKind::User => QueueModel {
            user: m.user.push(text),
            last_user_action: Some(now),
            ..m
        },
        SpeechKind::Alert => QueueModel { alert: m.alert.push(text), ..m },
        SpeechKind::Monologue => QueueModel { monologue: m.monologue.push(text), ..m },
    }
}

/// `after` is `before` with one utterance of tier `kind` submitted at `now`,
/// whose text is `text`.
pub open spec fn added(
    before: QueueModel,
    after: QueueModel,
    kind: SpeechKind,
    text: Seq<char>,
    now: int,
) -> bool {
    let tier = match kind {
        SpeechKind::User => after.user,
        SpeechKind::Alert => after.alert,
        SpeechKind::Monologue => after.monologue,
    };
    &&& tier.len() > 0
    &&& after == submitted(before, kind, tier.last(), now)
    &&& tier.last()@ == text
}

/// One selection at `now`: the head of the highest non-empty tier, with the
/// suppression rule applied to a monologue.
pub open spec fn next_step(m: QueueModel, now: int) -> (QueueModel, Step) {
    if m.user.len() > 0 {
        (
            QueueModel { user: m.user.drop_first(), ..m },
            Step::Speak(SpeechRequest { kind: SpeechKind::User, text: m.user[0] }),
        )
    } else if m.alert.len() > 0 {
        (
            QueueModel { alert: m.alert.drop_first(), ..m },
            Step::Speak(SpeechRequest { kind: SpeechKind::Alert, text: m.alert[0] }),
        )
    } else if m.monologue.len() > 0 {
        if monologue_suppressed(m, now) {
            (QueueModel { monologue: m.monologue.drop_first(), ..m }, Step::Discard(m.monologue[0]))
        } else {
            (
                QueueModel {
                    monologue: m.monologue.drop_first(),
                    last_monologue_spoken: Some(now),
                    ..m
                },
                Step::Speak(SpeechRequest { kind: SpeechKind::Monologue, text: m.monologue[0] }),
            )
        }
    } else {
        (m, Step::Idle)
    }
}

/// Whenever a user reply is waiting, the next selection speaks a user reply:
/// user replies never wait behind alerts or monologues.
pub proof fn lemma_user_tier_first(m: QueueModel, now: int)
    requires
        m.user.len() > 0,
    ensures
        next_step(m, now).1 == Step::Speak(SpeechRequest { kind: SpeechKind::User, text: m.user[0] }),
{
}

/// A user reply submitted after a monologue, before the consumer selects,
/// is spoken first; with no earlier user reply waiting, it is that reply.
pub proof fn lemma_user_over_monologue(
    m: QueueModel,
    mono: String,
    user: String,
    t1: int,
    t2: int,
    now: int,
)
    ensures
        ({
            let m2 = submitted(
                submitted(m, SpeechKind::Monologue, mono, t1),
                SpeechKind::User,
                user,
                t2,
            );
            &&& next_step(m2, now).1 matches Step::Speak(r) && r.kind == SpeechKind::User
            &&& m.user.len() == 0 ==> next_step(m2, now).1 == Step::Speak(
                SpeechRequest { kind: SpeechKind::User, text: user },
            )
        }),
{
}

/// An alert submitted after a monologue, with no user reply waiting, is
/// spoken first; with no earlier alert waiting, it is that alert.
pub proof fn lemma_alert_over_monologue(
    m: QueueModel,
    mono: String,
    alert: String,
    t1: int,
    t2: int,
    now: int,
)
    requires
        m.user.len() == 0,
    ensures
        ({
            let m2 = submitted(
                submitted(m, SpeechKind::Monologue, mono, t1),
                SpeechKind::Alert,
                alert,
                t2,
            );
            &&& next_step(m2, now).1 matches Step::Speak(r) && r.kind == SpeechKind::Alert
            &&& m.alert.len() == 0 ==> next_step(m2, now).1 == Step::Speak(
                SpeechRequest { kind: SpeechKind::Alert, text: alert },
            )
        }),
{
}

/// While the post-user window after a user action at `t` lasts, no selection
/// speaks a monologue, and selections keep that action on record; a monologue
/// submitted then, with nothing else waiting, is discarded.
pub proof fn lemma_monologue_suppressed_after_user(
    m: QueueModel,
    t: int,
    mono: String,
    t1: int,
    now: int,
)
    requires
        t <= now < t + m.suppress_after_user,
    ensures
        ({
            let marked = QueueModel { last_user_action: Some(t), ..m };
            &&& !(next_step(marked, now).1 matches Step::Speak(r) && r.kind
                == SpeechKind::Monologue)
            &&& next_step(marked, now).0.last_user_action == Some(t)
            &&& (m.user.len() == 0 && m.alert.len() == 0 && m.monologue.len() == 0) ==> next_step(
                submitted(marked, SpeechKind::Monologue, mono, t1),
                now,
            ).1 == Step::Discard(mono)
        }),
{
}

/// After a monologue is spoken at `t1`, another one selected before the
/// cooldown ends is discarded, and one selected once it has ended is spoken
/// (absent a recent user action).
pub proof fn lemma_monologue_cooldown(
    m: QueueModel,
    first: String,
    second: String,
    third: String,
    t1: int,
    t2: int,
    t3: int,
)
    requires
        m.user.len() == 0,
        m.alert.len() == 0,
        m.monologue == seq![first],
        !within(t1, m.last_user_action, m.suppress_after_user),
        !within(t3, m.last_user_action, m.suppress_after_user),
        !within(t1, m.last_monologue_spoken, m.monologue_cooldown),
        t1 <= t2 < t1 + m.monologue_cooldown,
        t1 + m.monologue_cooldown <= t3,
    ensures
        ({
            let (m1, s1) = next_step(m, t1);
            let (m2, s2) = next_step(submitted(m1, SpeechKind::Monologue, second, t2), t2);
            let (m3, s3) = next_step(submitted(m2, SpeechKind::Monologue, third, t3), t3);
            &&& s1 == Step::Speak(SpeechRequest { kind: SpeechKind::Monologue, text: first })
            &&& s2 == Step::Discard(second)
            &&& s3 == Step::Speak(SpeechRequest { kind: SpeechKind::Monologue, text: third })
        }),
{
    let (m1, s1) = next_step(m, t1);
    assert(m1.monologue =~= Seq::<String>::empty());
    let (m2, s2) = next_step(submitted(m1, SpeechKind::Monologue, second, t2), t2);
    assert(m2.monologue =~= Seq::<String>::empty());
}

/// The arbitration queue: pending utterances per tier and the timestamps
/// that drive monologue suppression.
pub struct SpeechQueue {
    user: VecDeque<String>,
    alert: VecDeque<String>,
    monologue: VecDeque<String>,
    last_user_action: Option<u64>,
    last_monologue_spoken: Option<u64>,
    monologue_cooldown: u64,
    suppress_monologue_after_user: u64,
}

impl View for SpeechQueue {
    type V = QueueModel;

    closed spec fn view(&self) -> QueueModel {
        QueueModel {
            user: self.user@,
            alert: self.alert@,
            monologue: self.monologue@,
            last_user_action: match self.last_user_action {
                Some(t) => Some(t as int),
                None => None,
            },
            last_monologue_spoken: match self.last_monologue_spoken {
                Some(t) => Some(t as int),
                None => None,
            },
            monologue_cooldown: self.monologue_cooldown as int,
            suppress_after_user: self.suppress_monologue_after_user as int,
        }
    }
}

fn is_within(now: u64, since: Option<u64>, window: u64) -> (r: bool)
    ensures
        r == within(
            now as int,
            match since {
                Some(t) => Some(t as int),
                None => None,
            },
            window as int,
        ),
{
    match since {
        Some(t) => {
            let e: u64 = if now >= t {
                now - t
            } else {
                0
            };
            e < window
        },
        None => false,
    }
}

impl SpeechQueue {
    /// An empty queue with the given monologue cooldown and post-user
    /// suppression window.
    pub fn new(monologue_cooldown: u64, suppress_monologue_after_user: u64) -> (r: Self)
        ensures
            r@.user.len() == 0,
            r@.alert.len() == 0,
            r@.monologue.len() == 0,
            r@.last_user_action is None,
            r@.last_monologue_spoken is None,
            r@.monologue_cooldown == monologue_cooldown,
            r@.suppress_after_user == suppress_monologue_after_user,
    {
        SpeechQueue {
            user: VecDeque::new(),
            alert: VecDeque::new(),
            monologue: VecDeque::new(),
            last_user_action: None,
            last_monologue_spoken: None,
            monologue_cooldown,
            suppress_monologue_after_user,
        }
    }

    /// Submits `text` to the tier `kind` at time `now`.
    pub fn say(&mut self, kind: SpeechKind, text: String, now: u64)
        ensures
            final(self)@ == submitted(old(self)@, kind, text, now as int),
    {
        match kind {
            SpeechKind::User => {
                self.last_user_action = Some(now);
                self.user.push_back(text);
            },
            SpeechKind::Alert => {
                self.alert.push_back(text);
            },
            SpeechKind::Monologue => {
                self.monologue.push_back(text);
            },
        }
    }

    /// Submits a reply to the user, which is served before everything else.
    pub fn say_user(&mut self, text: String, now: u64)
        ensures
            final(self)@ == submitted(old(self)@, SpeechKind::User, text, now as int),
    {
        self.say(SpeechKind::User, text, now)
    }

    /// Submits a reminder, served after user replies and before monologues.
    pub fn say_alert(&mut self, text: String, now: u64)
        ensures
            final(self)@ == submitted(old(self)@, SpeechKind::Alert, text, now as int),
    {
        self.say(SpeechKind::Alert, text, now)
    }

    /// Submits idle chatter, served last and subject to suppression.
    pub fn say_monologue(&mut self, text: String, now: u64)
        ensures
            final(self)@ == submitted(old(self)@, SpeechKind::Monologue, text, now as int),
    {
        self.say(SpeechKind::Monologue, text, now)
    }

    /// Records a user action at `now` without submitting anything.
    pub fn mark_user_action(&mut self, now: u64)
        ensures
            final(self)@ == (QueueModel { last_user_action: Some(now as int), ..old(self)@ }),
    {
        self.last_user_action = Some(now);
    }

    /// Nothing is waiting in any tier.
    pub fn is_empty(&self) -> (r: bool)
        ensures
            r == (self@.user.len() == 0 && self@.alert.len() == 0 && self@.monologue.len() == 0),
    {
        self.user.len() == 0 && self.alert.len() == 0 && self.monologue.len() == 0
    }

    /// Selects the next utterance at time `now`, in strict tier order, and
    /// applies the suppression rule when it is a monologue.
    pub fn next(&mut self, now: u64) -> (r: Step)
        ensures
            (final(self)@, r) == next_step(old(self)@, now as int),
    {
        if let Some(text) = self.user.pop_front() {
            return Step::Speak(SpeechRequest { kind: SpeechKind::User, text });
        }
        if let Some(text) = self.alert.pop_front() {
            return Step::Speak(SpeechRequest { kind: SpeechKind::Alert, text });
        }
        if let Some(text) = self.monologue.pop_front() {
            if is_within(now, self.last_user_action, self.suppress_monologue_after_user)
                || is_within(now, self.last_monologue_spoken, self.monologue_cooldown) {
                return Step::Discard(text);
            }
            self.last_monologue_spoken = Some(now);
            return Step::Speak(SpeechRequest { kind: SpeechKind::Monologue, text });
        }
        Step::Idle
    }
}

} // verus!
