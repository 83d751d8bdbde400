use editor_host::commands::{
    print_document, quit_app, set_window_title, HostAction, PrintStage, TitleStage, WindowStep,
};

#[test]
fn print_document_tells_the_view_to_print() {
    assert_eq!(
        print_document(PrintStage::Invoked),
        WindowStep::Perform(HostAction::Evaluate { script: "window.print()".to_string() })
    );
}

#[test]
fn print_document_passes_the_outcome_on() {
    assert_eq!(print_document(PrintStage::Delivered(Ok(()))), WindowStep::Reply(Ok(())));
    assert_eq!(
        print_document(PrintStage::Delivered(Err("webview not found".to_string()))),
        WindowStep::Reply(Err("webview not found".to_string()))
    );
}

#[test]
fn set_window_title_keeps_the_title_verbatim() {
    let step = set_window_title(TitleStage::Invoked { title: "Report \u{2014} Untitled".to_string() });
    match step {
        WindowStep::Perform(HostAction::SetTitle { title }) => {
            assert_eq!(title, "Report \u{2014} Untitled");
            assert_eq!(title.chars().nth(7), Some('\u{2014}'));
            assert_eq!(title.chars().count(), 17);
        }
        other => panic!("no title asked for: {:?}", other),
    }
}

#[test]
fn set_window_title_accepts_an_empty_title() {
    assert_eq!(
        set_window_title(TitleStage::Invoked { title: String::new() }),
        WindowStep::Perform(HostAction::SetTitle { title: String::new() })
    );
}

#[test]
fn set_window_title_passes_the_outcome_on() {
    assert_eq!(set_window_title(TitleStage::Applied(Ok(()))), WindowStep::Reply(Ok(())));
    assert_eq!(
        set_window_title(TitleStage::Applied(Err("window not found".to_string()))),
        WindowStep::Reply(Err("window not found".to_string()))
    );
}

#[test]
fn set_window_title_twice_asks_for_the_same_title() {
    let invoke = || TitleStage::Invoked { title: "S".to_string() };
    assert_eq!(set_window_title(invoke()), set_window_title(invoke()));
}

#[test]
fn quit_app_exits_with_status_zero() {
    assert_eq!(quit_app(), HostAction::Exit { status: 0 });
}
