use lark_relay::dispatch::handle_notification;
use lark_relay::dispatch::response_status;
use lark_relay::dispatch::retry_step;
use lark_relay::dispatch::run_dispatch;
use lark_relay::dispatch::run_two_serialized;
use lark_relay::dispatch::DispatchAction;
use lark_relay::dispatch::DispatchOutcome;
use lark_relay::dispatch::Dispatcher;
use lark_relay::dispatch::RetryDecision;
use lark_relay::dispatch::SerializationGate;
use lark_relay::dispatch::TraceStep;
use lark_relay::dispatch::MESSAGE_INTERVAL_MS;
use lark_relay::AttemptResult;
use lark_relay::WebhookEntry;
use lark_relay::WebhookNewEntriesEvent;

fn notification(articles: usize) -> WebhookNewEntriesEvent {
    let mut n = WebhookNewEntriesEvent::default();
    for i in 0..articles {
        let mut e = WebhookEntry::default();
        e.id = i as i64;
        n.entries.push(e);
    }
    n
}

fn always(result: AttemptResult) -> Vec<AttemptResult> {
    vec![result.clone(), result.clone(), result]
}

fn accepted() -> Vec<AttemptResult> {
    always(AttemptResult::Accepted)
}

#[test]
fn empty_notification_is_a_no_op() {
    let n = notification(0);
    let responses: Vec<Vec<AttemptResult>> = Vec::new();
    let (outcome, trace) = run_dispatch(&n, &responses);
    assert_eq!(outcome, DispatchOutcome { success_count: 0, failed_count: 0 });
    assert!(trace.is_empty());
}

#[test]
fn always_rate_limited_makes_three_attempts_then_fails() {
    let n = notification(1);
    let responses = vec![always(AttemptResult::RateLimited)];
    let (outcome, trace) = run_dispatch(&n, &responses);
    assert_eq!(outcome, DispatchOutcome { success_count: 0, failed_count: 1 });
    assert_eq!(
        trace,
        vec![
            TraceStep::Send { article: 0, attempt: 0 },
            TraceStep::Backoff { article: 0, ms: 1000 },
            TraceStep::Send { article: 0, attempt: 1 },
            TraceStep::Backoff { article: 0, ms: 2000 },
            TraceStep::Send { article: 0, attempt: 2 },
        ]
    );
}

#[test]
fn partial_failure_counts_and_pauses() {
    let n = notification(3);
    let responses = vec![
        accepted(),
        always(AttemptResult::Failed("status 400, body: no".to_string())),
        accepted(),
    ];
    let (outcome, trace) = run_dispatch(&n, &responses);
    assert_eq!(outcome, DispatchOutcome { success_count: 2, failed_count: 1 });
    assert_eq!(
        trace,
        vec![
            TraceStep::Send { article: 0, attempt: 0 },
            TraceStep::Pause { ms: MESSAGE_INTERVAL_MS },
            TraceStep::Send { article: 1, attempt: 0 },
            TraceStep::Send { article: 2, attempt: 0 },
        ]
    );
}

#[test]
fn recovered_rate_limit_then_next_article() {
    let n = notification(2);
    let responses = vec![
        vec![
            AttemptResult::RateLimited,
            AttemptResult::Accepted,
            AttemptResult::Accepted,
        ],
        accepted(),
    ];
    let (outcome, trace) = run_dispatch(&n, &responses);
    assert_eq!(outcome, DispatchOutcome { success_count: 2, failed_count: 0 });
    assert_eq!(
        trace,
        vec![
            TraceStep::Send { article: 0, attempt: 0 },
            TraceStep::Backoff { article: 0, ms: 1000 },
            TraceStep::Send { article: 0, attempt: 1 },
            TraceStep::Pause { ms: MESSAGE_INTERVAL_MS },
            TraceStep::Send { article: 1, attempt: 0 },
        ]
    );
}

#[test]
fn no_pause_after_last_article() {
    let n = notification(1);
    let responses = vec![accepted()];
    let (outcome, trace) = run_dispatch(&n, &responses);
    assert_eq!(outcome, DispatchOutcome { success_count: 1, failed_count: 0 });
    assert_eq!(trace, vec![TraceStep::Send { article: 0, attempt: 0 }]);
}

#[test]
fn retry_step_decisions() {
    assert_eq!(retry_step(0, AttemptResult::Accepted), RetryDecision::Success);
    assert_eq!(
        retry_step(0, AttemptResult::Failed("status 400, body: ".to_string())),
        RetryDecision::Fail("status 400, body: ".to_string())
    );
    assert_eq!(
        retry_step(0, AttemptResult::RateLimited),
        RetryDecision::Backoff(1000)
    );
    assert_eq!(
        retry_step(1, AttemptResult::RateLimited),
        RetryDecision::Backoff(2000)
    );
    assert_eq!(
        retry_step(2, AttemptResult::RateLimited),
        RetryDecision::Fail("max retries exceeded".to_string())
    );
}

#[test]
fn dispatcher_steps_through_one_retry() {
    let n = notification(1);
    let (mut d, act) = Dispatcher::new(&n);
    assert_eq!(act, DispatchAction::Send { article: 0 });
    let act = d.on_response(AttemptResult::RateLimited);
    assert_eq!(act, DispatchAction::Sleep { ms: 1000 });
    let act = d.on_slept();
    assert_eq!(act, DispatchAction::Send { article: 0 });
    let act = d.on_response(AttemptResult::Accepted);
    assert_eq!(
        act,
        DispatchAction::Done {
            outcome: DispatchOutcome { success_count: 1, failed_count: 0 },
        }
    );
}

#[test]
fn response_status_maps_outcomes() {
    assert_eq!(
        response_status(&DispatchOutcome { success_count: 3, failed_count: 0 }),
        200
    );
    assert_eq!(
        response_status(&DispatchOutcome { success_count: 0, failed_count: 0 }),
        200
    );
    assert_eq!(
        response_status(&DispatchOutcome { success_count: 2, failed_count: 1 }),
        500
    );
}

#[test]
fn handle_notification_answers_status() {
    let mut gate = SerializationGate::new();
    let n = notification(2);
    let ok = vec![accepted(), accepted()];
    let (status, _trace) = handle_notification(&mut gate, &n, &ok);
    assert_eq!(status, 200);
    let mixed = vec![
        accepted(),
        always(AttemptResult::Failed("status 400, body: no".to_string())),
    ];
    let (status, _trace) = handle_notification(&mut gate, &n, &mixed);
    assert_eq!(status, 500);
    assert!(!gate.held);
}

#[test]
fn two_notifications_are_fully_serialized() {
    let mut gate = SerializationGate::new();
    let first = notification(1);
    let second = notification(2);
    let first_responses = vec![accepted()];
    let second_responses = vec![accepted(), accepted()];
    let (s1, s2, trace) = run_two_serialized(
        &mut gate,
        &first,
        &first_responses,
        &second,
        &second_responses,
    );
    assert_eq!(s1, 200);
    assert_eq!(s2, 200);
    // the first cycle's whole trace precedes every step of the second
    assert_eq!(
        trace,
        vec![
            TraceStep::Send { article: 0, attempt: 0 },
            TraceStep::Send { article: 0, attempt: 0 },
            TraceStep::Pause { ms: MESSAGE_INTERVAL_MS },
            TraceStep::Send { article: 1, attempt: 0 },
        ]
    );
    assert!(!gate.held);
}
