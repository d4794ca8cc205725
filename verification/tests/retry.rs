use chapterbind::model::ChapterReference;
use chapterbind::outcome::AttemptResult;
use chapterbind::outcome::FailureCause;
use chapterbind::outcome::FetchOutcome;
use chapterbind::retry::run_fetch_task;
use chapterbind::retry::DEFAULT_RETRY_BUDGET;

fn reference(ordinal: i32) -> ChapterReference {
    ChapterReference { location: format!("https://example.test/ch/{ordinal}"), ordinal }
}

fn transport(detail: &str) -> AttemptResult {
    AttemptResult::Transport { detail: detail.to_string() }
}

fn retrieved(title: &str, body: &str) -> AttemptResult {
    AttemptResult::Retrieved { title: title.to_string(), body: body.to_string() }
}

#[test]
fn baseline_budget_is_five_attempts() {
    assert_eq!(DEFAULT_RETRY_BUDGET, 5);
}

#[test]
fn four_transient_failures_then_success_on_the_fifth() {
    let attempts = vec![
        transport("t1"),
        transport("t2"),
        transport("t3"),
        transport("t4"),
        retrieved("ch", "text"),
    ];
    let (outcome, used) = run_fetch_task(reference(1), 5, attempts);
    assert_eq!(used, 5);
    match outcome {
        FetchOutcome::Success(c) => {
            assert_eq!(c.title, "ch");
            assert_eq!(c.ordinal, 1);
        }
        _ => panic!("the fifth attempt succeeded, so the task must succeed"),
    }
}

#[test]
fn five_transient_failures_keep_the_last_cause() {
    let attempts = vec![
        transport("t1"),
        transport("t2"),
        transport("t3"),
        transport("t4"),
        transport("t5"),
    ];
    let (outcome, used) = run_fetch_task(reference(1), 5, attempts);
    assert_eq!(used, 5);
    match outcome {
        FetchOutcome::TerminalFailure(FailureCause::Transport(detail)) => {
            assert_eq!(detail, "t5");
        }
        _ => panic!("exhausting the budget must surface the last attempt's own cause"),
    }
}

#[test]
fn retry_is_transparent_to_the_result() {
    let with_retries = vec![transport("t1"), transport("t2"), retrieved("ch", "text")];
    let first_try =
        vec![retrieved("ch", "text"), transport("x1"), transport("x2")];
    let (after_retries, used_a) = run_fetch_task(reference(4), 3, with_retries);
    let (immediate, used_b) = run_fetch_task(reference(4), 3, first_try);
    assert_eq!(used_a, 3);
    assert_eq!(used_b, 1);
    match (after_retries, immediate) {
        (FetchOutcome::Success(a), FetchOutcome::Success(b)) => {
            assert_eq!(a.title, b.title);
            assert_eq!(a.location, b.location);
            assert_eq!(a.body, b.body);
            assert_eq!(a.ordinal, b.ordinal);
        }
        _ => panic!("both runs must succeed identically"),
    }
}

#[test]
fn malformed_content_is_terminal_at_once() {
    let attempts = vec![
        AttemptResult::Malformed { detail: "no episode marker".to_string() },
        transport("t2"),
        transport("t3"),
    ];
    let (outcome, used) = run_fetch_task(reference(2), 3, attempts);
    assert_eq!(used, 1);
    match outcome {
        FetchOutcome::TerminalFailure(FailureCause::Parse(detail)) => {
            assert_eq!(detail, "no episode marker");
        }
        _ => panic!("malformed content is never retried"),
    }
}

#[test]
fn non_success_status_is_retried() {
    let attempts = vec![
        AttemptResult::BadStatus { code: 503 },
        retrieved("ch", "text"),
        transport("t3"),
    ];
    let (outcome, used) = run_fetch_task(reference(3), 3, attempts);
    assert_eq!(used, 2);
    assert!(matches!(outcome, FetchOutcome::Success(_)));
}

#[test]
fn exhausted_statuses_keep_the_last_status() {
    let attempts = vec![
        AttemptResult::BadStatus { code: 500 },
        AttemptResult::BadStatus { code: 502 },
    ];
    let (outcome, used) = run_fetch_task(reference(3), 2, attempts);
    assert_eq!(used, 2);
    match outcome {
        FetchOutcome::TerminalFailure(FailureCause::Status(code)) => assert_eq!(code, 502),
        _ => panic!("the last status must be kept"),
    }
}

#[test]
fn successful_fetch_normalizes_the_chapter() {
    let attempts = vec![retrieved("The Title", "one<br>two")];
    let (outcome, used) = run_fetch_task(reference(9), 1, attempts);
    assert_eq!(used, 1);
    match outcome {
        FetchOutcome::Success(c) => {
            assert_eq!(c.title, "The Title");
            assert_eq!(c.location, "https://example.test/ch/9");
            assert_eq!(c.ordinal, 9);
            assert!(c.body.contains("<h2>The Title</h2>"));
            assert!(c.body.contains("one<br />two"));
            assert!(!c.body.contains("one<br>two"));
        }
        _ => panic!("a retrieved chapter must succeed"),
    }
}
