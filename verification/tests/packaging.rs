use chapterbind::aggregate::Aggregator;
use chapterbind::model::{Chapter, Work};
use chapterbind::outcome::{FailureCause, FetchOutcome};
use chapterbind::package::{chapter_file_name, prepare_package, render_package};

fn chapter(ordinal: i32, title: &str, body: &str) -> Chapter {
    Chapter {
        title: title.to_string(),
        location: format!("https://example.test/ch/{ordinal}"),
        body: body.to_string(),
        ordinal,
    }
}

#[test]
fn chapter_pages_are_named_after_their_ordinal() {
    assert_eq!(chapter_file_name(0), "ep0.xhtml");
    assert_eq!(chapter_file_name(7), "ep7.xhtml");
    assert_eq!(chapter_file_name(120), "ep120.xhtml");
}

#[test]
fn rendering_a_work_yields_container_bytes() {
    let work = Work {
        name: "A Work".to_string(),
        author: "An Author".to_string(),
        location: "https://example.test/work".to_string(),
        chapters: vec![chapter(1, "one", "<p>first</p>"), chapter(2, "two", "<p>second</p>")],
    };
    let bytes = render_package(&work).expect("rendering an ordinary work succeeds");
    assert!(bytes.len() > 2);
    // The container is a zip archive.
    assert_eq!(&bytes[0..2], b"PK");
}

#[test]
fn preparing_a_package_accepts_an_ordinary_work() {
    let work = Work {
        name: "A Work".to_string(),
        author: "An Author".to_string(),
        location: "https://example.test/work".to_string(),
        chapters: vec![chapter(1, "one", "<p>first</p>")],
    };
    assert!(prepare_package(&work).is_ok());
}

#[test]
fn aggregator_drains_every_outcome_after_a_failure() {
    let mut aggregator = Aggregator::new(3);
    aggregator.accept(FetchOutcome::TerminalFailure(FailureCause::Status(500)));
    aggregator.accept(FetchOutcome::Success(chapter(1, "a", "A")));
    aggregator.accept(FetchOutcome::TerminalFailure(FailureCause::Parse("late".to_string())));
    match aggregator.finish() {
        Err(FailureCause::Status(code)) => assert_eq!(code, 500),
        _ => panic!("the first terminal failure must be the one reported"),
    }
}

#[test]
fn aggregator_settles_successes_in_ordinal_order() {
    let mut aggregator = Aggregator::new(2);
    aggregator.accept(FetchOutcome::Success(chapter(9, "late", "L")));
    aggregator.accept(FetchOutcome::Success(chapter(4, "early", "E")));
    let chapters = aggregator.finish().expect("no failure was accepted");
    let ordinals: Vec<i32> = chapters.iter().map(|c| c.ordinal).collect();
    assert_eq!(ordinals, vec![4, 9]);
}
