use editor_host::dialog::{open_chooser, save_chooser, text_filters, ChooserMode, DialogFilter};

fn expected_filters() -> Vec<DialogFilter> {
    vec![
        DialogFilter { name: "Text Documents".to_string(), extensions: vec!["txt".to_string()] },
        DialogFilter { name: "All Files".to_string(), extensions: vec!["*".to_string()] },
    ]
}

#[test]
fn filters_are_text_documents_then_all_files() {
    assert_eq!(text_filters(), expected_filters());
}

#[test]
fn open_chooser_has_the_filters_and_no_proposed_name() {
    let chooser = open_chooser();
    assert_eq!(chooser.mode, ChooserMode::Open);
    assert_eq!(chooser.filters, expected_filters());
    assert_eq!(chooser.default_name, None);
}

#[test]
fn save_chooser_proposes_untitled_txt() {
    let chooser = save_chooser();
    assert_eq!(chooser.mode, ChooserMode::Save);
    assert_eq!(chooser.filters, expected_filters());
    assert_eq!(chooser.default_name, Some("Untitled.txt".to_string()));
}
