use pi_wizard_core::runtime::{
    ExtensionUiError, ExtensionUiState, ExtensionWidget, WidgetPlacement,
};
use pi_wizard_core::RuntimeLimits;

#[test]
fn keyed_status_and_widget_state_is_bounded_by_entry_count() {
    let limits = RuntimeLimits {
        max_extension_ui_entries_per_run: 1,
        ..RuntimeLimits::default()
    };
    let mut state = ExtensionUiState::new(limits);
    state
        .set_status("build".to_owned(), Some("running".to_owned()))
        .expect("first entry");

    assert_eq!(
        state.set_widget("queue".to_owned(),
            Some(ExtensionWidget {
                lines: vec!["waiting".to_owned()],
                placement: WidgetPlacement::BelowEditor,
            }),
        ),
        Err(ExtensionUiError::EntryLimit { limit: 1 })
    );
    assert_eq!(state.status_count(), 1);
    assert_eq!(state.widget_count(), 0);
}

#[test]
fn rejected_oversized_replacement_preserves_previous_state_and_accounting() {
    let limits = RuntimeLimits {
        max_extension_ui_bytes_per_run: 16,
        ..RuntimeLimits::default()
    };
    let mut state = ExtensionUiState::new(limits);
    state
        .set_status("k".to_owned(), Some("ok".to_owned()))
        .expect("small status");
    let before = state.used_bytes();

    assert!(matches!(
        state.set_status("k".to_owned(), Some("this is much too large".to_owned())),
        Err(ExtensionUiError::ByteLimit { .. })
    ));
    assert_eq!(state.used_bytes(), before);
    assert_eq!(state.status_count(), 1);
}

#[test]
fn clearing_entries_releases_budget() {
    let limits = RuntimeLimits {
        max_extension_ui_entries_per_run: 1,
        ..RuntimeLimits::default()
    };
    let mut state = ExtensionUiState::new(limits);
    state
        .set_status("build".to_owned(), Some("running".to_owned()))
        .expect("status");
    state.set_status("build".to_owned(), None).expect("clear status");
    state
        .set_widget("queue".to_owned(),
            Some(ExtensionWidget {
                lines: vec!["waiting".to_owned()],
                placement: WidgetPlacement::AboveEditor,
            }),
        )
        .expect("entry budget released");

    assert_eq!(state.status_count(), 0);
    assert_eq!(state.widget_count(), 1);
}

#[test]
fn every_byte_of_keys_texts_lines_and_title_is_counted() {
    let mut state = ExtensionUiState::new(RuntimeLimits::default());
    state.set_status("key".to_owned(), Some("text".to_owned())).expect("status");
    assert_eq!(state.used_bytes(), 7);
    state
        .set_widget(
            "w".to_owned(),
            Some(ExtensionWidget {
                lines: vec!["ab".to_owned(), "cde".to_owned()],
                placement: WidgetPlacement::AboveEditor,
            }),
        )
        .expect("widget");
    assert_eq!(state.used_bytes(), 13);
    state.set_title(Some("title".to_owned())).expect("title");
    assert_eq!(state.used_bytes(), 18);
    assert_eq!(state.title(), Some("title"));
    assert_eq!(state.statuses(), vec![("key", "text")]);
    state.set_title(None).expect("no title");
    state.set_widget("w".to_owned(), None).expect("no widget");
    state.set_status("key".to_owned(), None).expect("no status");
    assert_eq!(state.used_bytes(), 0);
}

#[test]
fn replacing_an_entry_takes_no_further_place() {
    let limits = RuntimeLimits {
        max_extension_ui_entries_per_run: 2,
        ..RuntimeLimits::default()
    };
    let mut state = ExtensionUiState::new(limits);
    for text in ["one", "two", "three"] {
        state.set_status("build".to_owned(), Some(text.to_owned())).expect("replaced");
    }
    state.set_status("test".to_owned(), Some("green".to_owned())).expect("second entry");
    assert_eq!(
        state.set_status("lint".to_owned(), Some("clean".to_owned())),
        Err(ExtensionUiError::EntryLimit { limit: 2 })
    );
    assert_eq!(state.status_count() + state.widget_count(), 2);
    assert_eq!(state.used_bytes(), "build".len() + "three".len() + "test".len() + "green".len());
    state.set_status("build".to_owned(), None).expect("cleared");
    state.set_status("lint".to_owned(), Some("clean".to_owned())).expect("a place is free");
}
