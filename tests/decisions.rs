use map_lint::lints::blue_sign::{is_blue_sign_graphic, is_sign_note_text};
use map_lint::lints::tissues::check_tissues;
use map_lint::pages::{is_transfer_explanation, TransferState, WeatherState};
use map_lint::scan::{comment_limit, is_skills_marker_text, long_comment_finding};
use map_lint::{
    analyze, Command, DiagnosticEvent, DiagnosticLevel, Document, Event, Instruction, Lint,
    LogLevel, Page, Graphic, TissueLint, Trigger,
};

fn chars(s: &str) -> Vec<char> {
    s.chars().collect()
}

#[test]
fn comment_limit_shrinks_with_depth() {
    assert_eq!(comment_limit(0), 56);
    assert_eq!(comment_limit(10), 36);
    assert_eq!(comment_limit(27), 2);
    assert_eq!(comment_limit(28), 0);
    assert_eq!(comment_limit(u32::MAX), 0);
}

#[test]
fn long_comment_finding_exact_message() {
    let at = DiagnosticEvent { id: 1, x: 0, y: 0, page: None };
    let d = long_comment_finding(at, 1, 55).expect("too wide");
    assert!(matches!(d.level, DiagnosticLevel::Warning));
    assert_eq!(d.message.as_deref(), Some("55/54"));
    assert_eq!(d.event, Some(at));
    assert!(long_comment_finding(at, 1, 54).is_none());
}

#[test]
fn skills_marker_is_found_anywhere_in_the_text() {
    assert!(is_skills_marker_text(&chars("check \u{25bd}Skills: dash")));
    assert!(!is_skills_marker_text(&chars("Skills")));
    assert!(!is_skills_marker_text(&chars("")));
}

#[test]
fn transfer_explanation_is_recognised() {
    let text = "\u{79fb}\u{52d5}\u{5148}\u{30de}\u{30c3}\u{30d7}\u{3067}\u{76f4}\u{63a5}\u{300c}\u{ff72}\u{ff8d}\u{ff9e}\u{ff9d}\u{ff84}\u{4e2d}\u{52d5}\u{4f5c}\u{7981}\u{6b62}\u{89e3}\u{9664}\u{300d}\u{3057}\u{3066}\u{3044}\u{307e}\u{3059}\u{3002}";
    assert!(is_transfer_explanation(&chars(text)));
    assert!(!is_transfer_explanation(&chars("moved elsewhere")));
}

#[test]
fn transfer_state_steps() {
    let s = TransferState { frozen: false, moved: false, excluded: false };
    let s = s.step(Instruction::TransferPlayer, false);
    assert!(!s.moved);
    let s = s.step(Instruction::CallEvent { mode: 0, index: 8 }, false);
    assert!(s.frozen);
    let s = s.step(Instruction::CallEvent { mode: 1, index: 9 }, false);
    assert!(s.frozen);
    let s = s.step(Instruction::TransferPlayer, false);
    assert!(s.moved);
    let s = s.step(Instruction::Comment, true);
    assert!(!s.excluded);
    let s = s.step(Instruction::CommentNextLine, false);
    assert!(s.excluded);
}

#[test]
fn weather_state_steps() {
    let s = WeatherState::Normal.step(Instruction::ControlVariables { mode: 1, start: 42, end: 42 });
    assert_eq!(s, WeatherState::ExpectingWeather);
    assert_eq!(s.step(Instruction::WeatherEffects), WeatherState::Finished);
    let s = WeatherState::Normal.step(Instruction::ControlVariables { mode: 0, start: 41, end: 42 });
    assert_eq!(s, WeatherState::Normal);
}

#[test]
fn blue_sign_graphic_needs_sheet_and_cell() {
    assert!(is_blue_sign_graphic(&chars("system_kyouyu_gazou06"), 1));
    assert!(is_blue_sign_graphic(&chars("system_kyouyu_gazou06"), 2));
    assert!(!is_blue_sign_graphic(&chars("system_kyouyu_gazou06"), 0));
    assert!(!is_blue_sign_graphic(&chars("system_kyouyu_gazou07"), 1));
    assert!(is_sign_note_text(&chars("Reserved for later")));
    assert!(is_sign_note_text(&chars("\u{63a5}\u{7d9a}\u{5148}")));
    assert!(!is_sign_note_text(&chars("sign")));
}

fn ev(id: u32, name: &[u8], commands: Vec<Command>) -> Event {
    Event {
        id,
        name: name.to_vec(),
        x: 0,
        y: 0,
        pages: vec![Page {
            trigger: Trigger::Autorun,
            graphic: Graphic { file: vec![], index: 0 },
            commands,
        }],
    }
}

fn call(id: u32) -> Command {
    Command { indent: 0, string: vec![], instruction: Instruction::CallEvent { mode: 2, index: id } }
}

#[test]
fn anchor_check_with_given_names() {
    let doc = Document {
        events: vec![
            ev(10, b"hub", (11..=15).map(call).collect()),
            ev(11, b"leaf1", vec![]),
            ev(12, b"leaf2", vec![]),
            ev(13, b"twig", vec![]),
            ev(14, b"leaf4", vec![]),
            ev(15, b"leaf5", vec![]),
        ],
    };
    let r = check_tissues(&doc, &b"hub".to_vec(), &vec![b"leaf".to_vec()]);
    assert_eq!(r.len(), 1);
    assert_eq!(r[0].message.as_deref(), Some("incorrect event pointed to by tissue 3."));
    let r = check_tissues(&doc, &b"hub".to_vec(), &vec![b"leaf".to_vec(), b"tw".to_vec()]);
    assert!(r.is_empty());
    let r = check_tissues(&doc, &b"none".to_vec(), &vec![]);
    assert_eq!(r.len(), 1);
    assert!(matches!(r[0].level, DiagnosticLevel::Warning));
}

#[test]
fn empty_document_only_lacks_the_anchor() {
    let doc = Document { events: vec![] };
    let r = analyze(&doc, &LogLevel::Warn, &[]);
    assert_eq!(r.len(), 1);
    assert_eq!(r[0].index, 2);
    assert_eq!(r[0].name, TissueLint.name());
    let r = analyze(&doc, &LogLevel::Error, &[]);
    assert!(r.is_empty());
}
