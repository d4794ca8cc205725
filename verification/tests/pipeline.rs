use chapterbind::aggregate::reassemble;
use chapterbind::aggregate::sort_chapters;
use chapterbind::model::assemble_work;
use chapterbind::model::Chapter;
use chapterbind::outcome::FailureCause;
use chapterbind::outcome::FetchOutcome;

fn chapter(ordinal: i32, title: &str, body: &str) -> Chapter {
    Chapter {
        title: title.to_string(),
        location: format!("https://example.test/ch/{ordinal}"),
        body: body.to_string(),
        ordinal,
    }
}

#[test]
fn reassembles_in_ordinal_order_regardless_of_arrival() {
    // References carry ordinals [3, 1, 2]; outcomes arrive as [2, 3, 1].
    let outcomes = vec![
        FetchOutcome::Success(chapter(2, "second", "body two")),
        FetchOutcome::Success(chapter(3, "third", "body three")),
        FetchOutcome::Success(chapter(1, "first", "body one")),
    ];
    let chapters = reassemble(outcomes).expect("fully successful run");
    let ordinals: Vec<i32> = chapters.iter().map(|c| c.ordinal).collect();
    assert_eq!(ordinals, vec![1, 2, 3]);
    assert_eq!(chapters[0].title, "first");
    assert_eq!(chapters[0].body, "body one");
    assert_eq!(chapters[1].title, "second");
    assert_eq!(chapters[1].body, "body two");
    assert_eq!(chapters[2].title, "third");
    assert_eq!(chapters[2].body, "body three");
}

#[test]
fn fully_successful_run_keeps_every_chapter() {
    let outcomes = vec![
        FetchOutcome::Success(chapter(7, "g", "G")),
        FetchOutcome::Success(chapter(2, "b", "B")),
        FetchOutcome::Success(chapter(9, "i", "I")),
        FetchOutcome::Success(chapter(4, "d", "D")),
    ];
    let chapters = reassemble(outcomes).expect("fully successful run");
    assert_eq!(chapters.len(), 4);
    let ordinals: Vec<i32> = chapters.iter().map(|c| c.ordinal).collect();
    assert_eq!(ordinals, vec![2, 4, 7, 9]);
}

#[test]
fn one_terminal_failure_fails_the_whole_run() {
    let outcomes = vec![
        FetchOutcome::Success(chapter(1, "a", "A")),
        FetchOutcome::TerminalFailure(FailureCause::Transport("connection reset".to_string())),
        FetchOutcome::Success(chapter(2, "b", "B")),
    ];
    match reassemble(outcomes) {
        Ok(_) => panic!("a failed chapter must fail the run"),
        Err(FailureCause::Transport(detail)) => assert_eq!(detail, "connection reset"),
        Err(_) => panic!("the terminal failure's own cause must be kept"),
    }
}

#[test]
fn first_terminal_failure_is_the_one_reported() {
    let outcomes = vec![
        FetchOutcome::TerminalFailure(FailureCause::Status(503)),
        FetchOutcome::TerminalFailure(FailureCause::Parse("missing marker".to_string())),
    ];
    match reassemble(outcomes) {
        Err(FailureCause::Status(code)) => assert_eq!(code, 503),
        _ => panic!("the first failure in arrival order must be reported"),
    }
}

#[test]
fn empty_submission_settles_on_no_chapters() {
    let chapters = reassemble(Vec::new()).expect("nothing to fetch, nothing to fail");
    assert!(chapters.is_empty());
}

#[test]
fn sort_orders_strictly_by_ordinal() {
    let chapters = vec![chapter(5, "e", "E"), chapter(1, "a", "A"), chapter(3, "c", "C")];
    let sorted = sort_chapters(chapters);
    let ordinals: Vec<i32> = sorted.iter().map(|c| c.ordinal).collect();
    assert_eq!(ordinals, vec![1, 3, 5]);
}

#[test]
fn assembled_work_keeps_metadata_and_chapters() {
    let chapters = vec![chapter(1, "a", "A"), chapter(2, "b", "B")];
    let work = assemble_work(
        "A Work".to_string(),
        "An Author".to_string(),
        "https://example.test/work".to_string(),
        chapters,
    );
    assert_eq!(work.name, "A Work");
    assert_eq!(work.author, "An Author");
    assert_eq!(work.location, "https://example.test/work");
    assert_eq!(work.chapters.len(), 2);
    assert_eq!(work.chapters[0].ordinal, 1);
    assert_eq!(work.chapters[1].ordinal, 2);
}
