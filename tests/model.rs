use map_lint::browser::{browse_step, BrowseAction, BrowseKey};
use map_lint::text::{contains, has_prefix};
use map_lint::verdict;
use map_lint::{
    CodePage, Diagnostic, DiagnosticEvent, DiagnosticLevel, DiagnosticPage, Document, Event,
};

#[test]
fn page_locations_are_one_based() {
    let p = DiagnosticPage::new_from_index(0);
    assert_eq!(p, DiagnosticPage { id: 1, command: None });
    let p = DiagnosticPage::new_from_indexes(2, 9);
    assert_eq!(p, DiagnosticPage { id: 3, command: Some(10) });
}

#[test]
fn full_location_renders_padded() {
    let d = Diagnostic {
        level: DiagnosticLevel::Error,
        event: Some(DiagnosticEvent {
            id: 12,
            x: 3,
            y: 45,
            page: Some(DiagnosticPage { id: 2, command: Some(17) }),
        }),
        message: Some("bad".to_string()),
    };
    assert_eq!(d.render(), "EV0012 (X003, Y045) P02 I00017: bad");
}

#[test]
fn event_location_renders_without_page() {
    let d = Diagnostic {
        level: DiagnosticLevel::Warning,
        event: Some(DiagnosticEvent { id: 12345, x: 1000, y: 0, page: None }),
        message: None,
    };
    assert_eq!(d.render(), "EV12345 (X1000, Y000)");
    let d = Diagnostic {
        level: DiagnosticLevel::Warning,
        event: Some(DiagnosticEvent { id: 1, x: 1, y: 1, page: Some(DiagnosticPage { id: 4, command: None }) }),
        message: None,
    };
    assert_eq!(d.render(), "EV0001 (X001, Y001) P04");
}

#[test]
fn document_scoped_diagnostics_render_their_message() {
    let d = Diagnostic { level: DiagnosticLevel::Warning, event: None, message: Some("whole map".to_string()) };
    assert_eq!(d.render(), "whole map");
    let d = Diagnostic { level: DiagnosticLevel::Warning, event: None, message: None };
    assert_eq!(d.render(), "<No information provided>");
}

#[test]
fn event_id_zero_is_not_well_formed() {
    let ok = Document { events: vec![Event { id: 1, name: vec![], x: 0, y: 0, pages: vec![] }] };
    assert!(ok.is_well_formed());
    let bad = Document { events: vec![Event { id: 0, name: vec![], x: 0, y: 0, pages: vec![] }] };
    assert!(!bad.is_well_formed());
}

#[test]
fn error_verdict_lowers_to_warning() {
    match verdict::Diagnostic::Error("x".to_string()).to_warning() {
        verdict::Diagnostic::Warning(m) => assert_eq!(m, "x"),
        _ => panic!("expected a warning"),
    }
    assert!(matches!(verdict::Diagnostic::Normal.to_warning(), verdict::Diagnostic::Normal));
}

#[test]
fn findings_summarise_as_an_error() {
    let e = Event { id: 7, name: vec![], x: 10, y: 2, pages: vec![] };
    let findings = [(&e, 1usize, "first"), (&e, 3usize, "second")];
    match verdict::Diagnostic::from_findings(&findings) {
        verdict::Diagnostic::Error(text) => assert_eq!(
            text,
            "\n    EV0007 (X010, Y002) on page 1: first\n    EV0007 (X010, Y002) on page 3: second"
        ),
        _ => panic!("expected an error"),
    }
    assert!(matches!(verdict::Diagnostic::from_findings(&[]), verdict::Diagnostic::Normal));
}

#[test]
fn code_page_labels() {
    assert_eq!(CodePage::Ascii.to_str(), "ASCII");
    assert_eq!(CodePage::Eastern.to_str(), "European");
    assert_eq!(CodePage::Cyrillic.to_str(), "Cyrillic");
    assert_eq!(CodePage::ShiftJIS.to_str(), "Japanese");
    assert_eq!(CodePage::Big5.to_str(), "Chinese");
}

#[test]
fn picker_moves_within_the_list() {
    assert_eq!(browse_step(0, 10, BrowseKey::Up), BrowseAction::Select(0));
    assert_eq!(browse_step(3, 10, BrowseKey::Up), BrowseAction::Select(2));
    assert_eq!(browse_step(9, 10, BrowseKey::Down), BrowseAction::Select(9));
    assert_eq!(browse_step(5, 100, BrowseKey::PageDown), BrowseAction::Select(45));
    assert_eq!(browse_step(70, 100, BrowseKey::PageDown), BrowseAction::Select(99));
    assert_eq!(browse_step(30, 100, BrowseKey::PageUp), BrowseAction::Select(0));
    assert_eq!(browse_step(50, 100, BrowseKey::PageUp), BrowseAction::Select(10));
    assert_eq!(browse_step(4, 10, BrowseKey::Enter), BrowseAction::Open(4));
    assert_eq!(browse_step(40, 10, BrowseKey::Enter), BrowseAction::Open(9));
    assert_eq!(browse_step(0, 0, BrowseKey::Enter), BrowseAction::Select(0));
    assert_eq!(browse_step(2, 10, BrowseKey::Interrupt), BrowseAction::Quit);
}

#[test]
fn substring_and_prefix_search() {
    let text: Vec<char> = "abcabd".chars().collect();
    assert!(contains(&text, &"abd".chars().collect()));
    assert!(!contains(&text, &"abe".chars().collect()));
    assert!(contains(&text, &Vec::new()));
    assert!(has_prefix(&b"tissue".to_vec(), &b"tis".to_vec()));
    assert!(!has_prefix(&b"ti".to_vec(), &b"tis".to_vec()));
}
