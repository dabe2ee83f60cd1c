use kotonoha_core::speech::{SpeechKind, SpeechQueue, Step};
use kotonoha_core::tts::{enable_mock_mode, AudioSink};

/// Runs the consumer until the queue is idle, sending what it speaks to the sink.
fn drain(speech: &mut SpeechQueue, sink: &mut AudioSink, now: u64) {
    loop {
        match speech.next(now) {
            Step::Speak(req) => {
                sink.capture(&req.text);
            }
            Step::Discard(_) => {}
            Step::Idle => break,
        }
    }
}

#[test]
fn user_has_priority_over_monologue() {
    let mut sink = AudioSink::new(false);
    enable_mock_mode(&mut sink);
    let mut speech = SpeechQueue::new(0, 0);

    speech.say(SpeechKind::Monologue, "mono".to_string(), 0);
    speech.say(SpeechKind::User, "user".to_string(), 0);
    drain(&mut speech, &mut sink, 50);

    let spoken = sink.take_spoken();
    assert!(!spoken.is_empty(), "nothing was spoken");
    assert_eq!(spoken[0], "user");
}

#[test]
fn alert_has_priority_over_monologue() {
    let mut sink = AudioSink::new(false);
    enable_mock_mode(&mut sink);
    let mut speech = SpeechQueue::new(0, 0);

    speech.say(SpeechKind::Monologue, "mono".to_string(), 0);
    speech.say(SpeechKind::Alert, "alert".to_string(), 0);
    drain(&mut speech, &mut sink, 50);

    let spoken = sink.take_spoken();
    assert!(!spoken.is_empty(), "nothing was spoken");
    assert_eq!(spoken[0], "alert");
}

#[test]
fn full_order_user_alert_monologue() {
    let mut sink = AudioSink::new(true);
    let mut speech = SpeechQueue::new(0, 0);
    speech.say_monologue("m".to_string(), 0);
    speech.say_alert("a1".to_string(), 0);
    speech.say_alert("a2".to_string(), 0);
    // With a zero window the user's arrival does not silence the monologue.
    speech.say_user("u".to_string(), 0);
    drain(&mut speech, &mut sink, 0);
    assert_eq!(sink.take_spoken(), vec!["u", "a1", "a2", "m"]);
    assert!(speech.is_empty());
}

#[test]
fn monologue_suppressed_after_user_action() {
    let mut speech = SpeechQueue::new(0, 10_000);
    speech.mark_user_action(1_000);
    speech.say_monologue("mono".to_string(), 1_000);
    match speech.next(1_000) {
        Step::Discard(t) => assert_eq!(t, "mono"),
        other => panic!("expected a discard, got {:?}", other),
    }
    assert!(matches!(speech.next(1_000), Step::Idle));
}

#[test]
fn monologue_suppressed_by_user_submission() {
    let mut sink = AudioSink::new(true);
    let mut speech = SpeechQueue::new(0, 10_000);
    speech.say_monologue("mono".to_string(), 0);
    speech.say_user("hello".to_string(), 0);
    drain(&mut speech, &mut sink, 5_000);
    assert_eq!(sink.take_spoken(), vec!["hello"]);
}

#[test]
fn monologue_allowed_once_suppression_window_passes() {
    let mut speech = SpeechQueue::new(0, 10_000);
    speech.mark_user_action(1_000);
    speech.say_monologue("later".to_string(), 11_000);
    match speech.next(11_000) {
        Step::Speak(r) => {
            assert_eq!(r.kind, SpeechKind::Monologue);
            assert_eq!(r.text, "later");
        }
        other => panic!("expected speech, got {:?}", other),
    }
}

#[test]
fn monologue_cooldown_discards_then_allows() {
    let mut sink = AudioSink::new(true);
    let mut speech = SpeechQueue::new(10_000, 0);
    speech.say_monologue("first".to_string(), 0);
    drain(&mut speech, &mut sink, 0);
    speech.say_monologue("second".to_string(), 5_000);
    match speech.next(5_000) {
        Step::Discard(t) => assert_eq!(t, "second"),
        other => panic!("expected a discard, got {:?}", other),
    }
    speech.say_monologue("third".to_string(), 10_000);
    drain(&mut speech, &mut sink, 10_000);
    assert_eq!(sink.take_spoken(), vec!["first", "third"]);
}

#[test]
fn alerts_are_never_suppressed() {
    let mut sink = AudioSink::new(true);
    let mut speech = SpeechQueue::new(10_000, 10_000);
    speech.mark_user_action(0);
    speech.say_alert("due".to_string(), 0);
    speech.say_alert("due again".to_string(), 0);
    drain(&mut speech, &mut sink, 0);
    assert_eq!(sink.take_spoken(), vec!["due", "due again"]);
}

#[test]
fn idle_queue_reports_idle() {
    let mut speech = SpeechQueue::new(0, 0);
    assert!(speech.is_empty());
    assert!(matches!(speech.next(0), Step::Idle));
}

#[test]
fn sink_outside_mock_mode_records_nothing() {
    let mut sink = AudioSink::new(false);
    assert!(!sink.is_mock());
    assert!(!sink.capture("hello"));
    assert!(sink.take_spoken().is_empty());
    enable_mock_mode(&mut sink);
    assert!(sink.capture("hello"));
    assert_eq!(sink.take_spoken(), vec!["hello"]);
    assert!(sink.take_spoken().is_empty());
}
