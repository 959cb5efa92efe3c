use pdf_presenter::error::ErrorKind;

#[test]
fn io_failure_reports_its_kind_and_text() {
    let error = ErrorKind::IoFailure(String::from("disk gone"));
    assert!(error.is_io_failure());
    assert!(!error.is_window_failure());
    assert_eq!(error.message(), "disk gone");
    assert_eq!(error.into_message(), String::from("disk gone"));
}

#[test]
fn window_failure_reports_its_kind_and_text() {
    let error = ErrorKind::WindowFailure(String::from("a window with label `singleview` already exists"));
    assert!(error.is_window_failure());
    assert!(!error.is_io_failure());
    assert_eq!(error.message(), "a window with label `singleview` already exists");
    assert_eq!(
        error.into_message(),
        String::from("a window with label `singleview` already exists")
    );
}

#[test]
fn empty_text_is_kept() {
    let error = ErrorKind::WindowFailure(String::new());
    assert_eq!(error.message(), "");
}
