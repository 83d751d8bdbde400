use editor_host::file_result::FileResult;

fn text(s: &str) -> Option<String> {
    Some(s.to_string())
}

#[test]
fn acknowledged_sets_only_success() {
    let r = FileResult::acknowledged();
    assert_eq!(r, FileResult { success: true, path: None, content: None, error: None });
}

#[test]
fn opened_carries_path_and_text() {
    let r = FileResult::opened("/tmp/a.txt".to_string(), "hello".to_string());
    assert_eq!(
        r,
        FileResult { success: true, path: text("/tmp/a.txt"), content: text("hello"), error: None }
    );
}

#[test]
fn opened_keeps_an_empty_text_present() {
    let r = FileResult::opened("/tmp/empty.txt".to_string(), String::new());
    assert_eq!(r.content, text(""));
    assert!(r.success);
}

#[test]
fn saved_carries_the_path_only() {
    let r = FileResult::saved("/tmp/a.txt".to_string());
    assert_eq!(
        r,
        FileResult { success: true, path: text("/tmp/a.txt"), content: None, error: None }
    );
}

#[test]
fn failed_carries_the_description_only() {
    let r = FileResult::failed("Permission denied (os error 13)".to_string());
    assert_eq!(
        r,
        FileResult {
            success: false,
            path: None,
            content: None,
            error: text("Permission denied (os error 13)"),
        }
    );
}

#[test]
fn cancelled_sets_nothing() {
    let r = FileResult::cancelled();
    assert_eq!(r, FileResult { success: false, path: None, content: None, error: None });
}

#[test]
fn every_constructor_is_well_formed() {
    assert!(FileResult::acknowledged().is_well_formed());
    assert!(FileResult::opened("/p".to_string(), "t".to_string()).is_well_formed());
    assert!(FileResult::saved("/p".to_string()).is_well_formed());
    assert!(FileResult::failed("e".to_string()).is_well_formed());
    assert!(FileResult::cancelled().is_well_formed());
}

#[test]
fn success_with_an_error_is_not_well_formed() {
    let r = FileResult { success: true, path: None, content: None, error: text("e") };
    assert!(!r.is_well_formed());
}

#[test]
fn text_without_a_path_is_not_well_formed() {
    let r = FileResult { success: true, path: None, content: text("t"), error: None };
    assert!(!r.is_well_formed());
}

#[test]
fn failure_with_a_path_or_a_text_is_not_well_formed() {
    let with_path = FileResult { success: false, path: text("/p"), content: None, error: text("e") };
    let with_text = FileResult { success: false, path: None, content: text("t"), error: None };
    assert!(!with_path.is_well_formed());
    assert!(!with_text.is_well_formed());
}

#[test]
fn only_a_dismissal_is_a_cancellation() {
    assert!(FileResult::cancelled().is_cancellation());
    assert!(!FileResult::failed("e".to_string()).is_cancellation());
    assert!(!FileResult::acknowledged().is_cancellation());
    assert!(!FileResult::saved("/p".to_string()).is_cancellation());
    assert!(!FileResult::opened("/p".to_string(), "t".to_string()).is_cancellation());
}
