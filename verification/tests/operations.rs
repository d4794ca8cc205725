use chapterbind::content::_make_content;
use chapterbind::content::page_head;
use chapterbind::content::page_mid;
use chapterbind::content::page_tail;
use chapterbind::content::stylesheet;
use chapterbind::gate::AdmissionGate;
use chapterbind::gate::OperationClass;
use chapterbind::model::Work;
use chapterbind::ops::already_in_progress_response;
use chapterbind::ops::check_output_available;
use chapterbind::ops::ok_response;
use chapterbind::ops::operation_error_response;
use chapterbind::ops::output_file_name;
use chapterbind::ops::status_is_success;
use chapterbind::pool::TaskPool;

#[test]
fn second_operation_of_the_same_class_is_refused_at_once() {
    let mut gate = AdmissionGate::new();
    assert!(gate.try_acquire(OperationClass::Listing));
    assert!(!gate.try_acquire(OperationClass::Listing));
    assert!(!gate.try_acquire(OperationClass::Listing));
}

#[test]
fn classes_are_admitted_independently() {
    let mut gate = AdmissionGate::new();
    assert!(gate.try_acquire(OperationClass::Listing));
    assert!(gate.try_acquire(OperationClass::Download));
    assert!(!gate.try_acquire(OperationClass::Listing));
    assert!(!gate.try_acquire(OperationClass::Download));
}

#[test]
fn releasing_admits_the_next_operation() {
    let mut gate = AdmissionGate::new();
    assert!(gate.try_acquire(OperationClass::Download));
    gate.release(OperationClass::Download);
    assert!(gate.try_acquire(OperationClass::Download));
}

#[test]
fn saturated_pool_refuses_further_launches() {
    let mut pool = TaskPool::new(2);
    assert!(pool.try_launch());
    assert!(pool.try_launch());
    assert!(!pool.try_launch());
    pool.task_finished();
    assert!(pool.try_launch());
    assert!(!pool.try_launch());
}

#[test]
fn existing_output_aborts_the_download_before_any_fetch() {
    let file_name = output_file_name("My Work");
    assert_eq!(file_name, "My Work.epub");
    match check_output_available(&file_name, true) {
        Err(message) => assert_eq!(message, "My Work.epub is already exists"),
        Ok(()) => panic!("an existing output name must abort the download"),
    }
}

#[test]
fn fresh_output_lets_the_download_begin() {
    assert!(check_output_available("My Work.epub", false).is_ok());
}

#[test]
fn envelopes_carry_the_three_statuses() {
    let ok = ok_response(vec![1u32, 2, 3]);
    assert_eq!(ok.status_code, 0);
    assert_eq!(ok.data, vec![1, 2, 3]);
    assert_eq!(ok.message, "");

    let failed = operation_error_response(Vec::<u32>::new(), "boom".to_string());
    assert_eq!(failed.status_code, 1);
    assert!(failed.data.is_empty());
    assert_eq!(failed.message, "boom");

    let busy = already_in_progress_response(
        Vec::<u32>::new(),
        "an operation of this class is already in progress".to_string(),
    );
    assert_eq!(busy.status_code, 2);
    assert!(busy.data.is_empty());
    assert_eq!(busy.message, "an operation of this class is already in progress");
}

#[test]
fn listing_envelope_holds_discovered_works() {
    let work = Work::discovered(
        "A Work".to_string(),
        "An Author".to_string(),
        "https://example.test/work".to_string(),
    );
    let response = ok_response(vec![work]);
    assert_eq!(response.status_code, 0);
    assert_eq!(response.data.len(), 1);
    assert_eq!(response.data[0].name, "A Work");
    assert!(response.data[0].chapters.is_empty());
}

#[test]
fn only_status_200_counts_as_success() {
    assert!(status_is_success(200));
    assert!(!status_is_success(201));
    assert!(!status_is_success(301));
    assert!(!status_is_success(404));
    assert!(!status_is_success(503));
}

#[test]
fn normalized_page_rewrites_breaks_and_wraps_the_template() {
    let page = _make_content("one<br>two<br>three".to_string(), "A Title".to_string());
    let expected = format!(
        "{}{}{}{}{}",
        page_head(),
        "A Title",
        page_mid(),
        "one<br />two<br />three",
        page_tail()
    );
    assert_eq!(page, expected);
}

#[test]
fn break_rewrite_touches_only_exact_markers() {
    let page = _make_content("a<br>b<b r>c<br".to_string(), "t".to_string());
    assert!(page.contains("a<br />b<b r>c<br</body>"));
}

#[test]
fn normalized_page_matches_the_fixed_template_exactly() {
    let page = _make_content("body".to_string(), "head".to_string());
    let expected = "<?xml version=\"1.0\" encoding=\"utf-8\"?> \n            <html xmlns=\"http://www.w3.org/1999/xhtml\" xmlns:epub=\"http://www.idpf.org/2007/ops\" xml:lang=\"zh-CN\" xmlns:xml=\"http://www.w3.org/XML/1998/namespace\">\n            <head><link href=\"stylesheet.css\" type=\"text/css\" rel=\"stylesheet\" /></head>\n            <body><h2>head</h2>body</body>\n            </html>";
    assert_eq!(page, expected);
}

#[test]
fn normalization_handles_multibyte_text() {
    let page = _make_content("一行目<br>二行目".to_string(), "第一話".to_string());
    assert!(page.contains("<h2>第一話</h2>"));
    assert!(page.contains("一行目<br />二行目"));
}

#[test]
fn stylesheet_is_the_fixed_text() {
    let css = stylesheet();
    assert!(css.contains("text-align: justify;"));
    assert!(css.contains("text-indent:2em;"));
}
