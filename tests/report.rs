use map_lint::batch::{analyze_loaded, assemble, run_batch, MapOutcome, MapResult};
use map_lint::lints::{lint_name, run_lint};
use map_lint::{analyze, Command, Document, Event, Graphic, Instruction, LogLevel, Page, ReportEntry, Trigger};

fn cmd(instruction: Instruction) -> Command {
    Command { indent: 0, string: Vec::new(), instruction }
}

fn sample() -> Document {
    let page = Page {
        trigger: Trigger::ActionButton,
        graphic: Graphic { file: Vec::new(), index: 0 },
        commands: vec![
            cmd(Instruction::WeatherEffects),
            cmd(Instruction::ScrollMap { speed: 53 }),
            cmd(Instruction::ShowPicture),
            cmd(Instruction::ControlVariables { mode: 0, start: 44, end: 0 }),
        ],
    };
    Document { events: vec![Event { id: 1, name: b"x".to_vec(), x: 0, y: 0, pages: vec![page] }] }
}

fn lines(entries: &[ReportEntry]) -> Vec<String> {
    let mut out = Vec::new();
    for e in entries {
        out.push(format!("L{:04}: {}", e.index, e.name));
        for d in &e.diagnostics {
            out.push(format!("  {}", d.render()));
        }
    }
    out
}

fn result_lines(results: &[MapResult]) -> Vec<String> {
    let mut out = Vec::new();
    for r in results {
        match &r.outcome {
            MapOutcome::Failed(m) => out.push(format!("{} failed: {}", r.id, m)),
            MapOutcome::Analyzed(entries) => {
                out.push(format!("{}:", r.id));
                out.extend(lines(entries));
            }
        }
    }
    out
}

#[test]
fn all_floor_keeps_clean_rules() {
    let r = analyze(&sample(), &LogLevel::All, &[]);
    assert_eq!(r.len(), 9);
    let indexes: Vec<usize> = r.iter().map(|e| e.index).collect();
    assert_eq!(indexes, (1..=9).collect::<Vec<_>>());
    assert_eq!(r[0].name, "Parity between weather and V0042");
    assert!(r[5].diagnostics.is_empty());
}

#[test]
fn warn_floor_drops_clean_rules() {
    let r = analyze(&sample(), &LogLevel::Warn, &[]);
    let indexes: Vec<usize> = r.iter().map(|e| e.index).collect();
    // weather, tissues (no anchor), V0044, instant scroll, show picture
    assert_eq!(indexes, vec![1, 2, 3, 4, 7]);
}

#[test]
fn error_floor_keeps_only_errors() {
    let r = analyze(&sample(), &LogLevel::Error, &[]);
    let indexes: Vec<usize> = r.iter().map(|e| e.index).collect();
    assert_eq!(indexes, vec![1, 3]);
    assert!(r.iter().all(|e| e.diagnostics.iter().all(|d| matches!(d.level, map_lint::DiagnosticLevel::Error))));
}

#[test]
fn suppression_removes_exactly_the_listed_rules() {
    for level in [LogLevel::All, LogLevel::Warn, LogLevel::Error] {
        let full = analyze(&sample(), &level, &[]);
        let suppressed = analyze(&sample(), &level, &[1, 4, 9]);
        let expected: Vec<&ReportEntry> =
            full.iter().filter(|e| ![1, 4, 9].contains(&e.index)).collect();
        let kept: Vec<usize> = suppressed.iter().map(|e| e.index).collect();
        assert_eq!(kept, expected.iter().map(|e| e.index).collect::<Vec<_>>());
        let expected_lines: Vec<String> = expected
            .iter()
            .flat_map(|e| lines(std::slice::from_ref(*e)))
            .collect();
        assert_eq!(lines(&suppressed), expected_lines);
    }
}

#[test]
fn registry_names_and_order() {
    assert_eq!(lint_name(1), "Tissue event validity");
    assert_eq!(lint_name(8), "Transitioning maps should be unPADEed");
    assert_eq!(run_lint(2, &sample()).len(), 1);
}

fn inputs() -> Vec<(u32, Result<Document, String>)> {
    vec![
        (5, Ok(sample())),
        (2, Err("truncated file".to_string())),
        (9, Ok(Document { events: vec![] })),
        (3, Ok(sample())),
    ]
}

#[test]
fn batch_is_in_identifier_order() {
    let r = run_batch(inputs(), &LogLevel::Warn, &[]);
    let ids: Vec<u32> = r.iter().map(|m| m.id).collect();
    assert_eq!(ids, vec![2, 3, 5, 9]);
    assert!(matches!(&r[0].outcome, MapOutcome::Failed(m) if m == "truncated file"));
}

#[test]
fn completion_order_does_not_change_output() {
    let sequential = run_batch(inputs(), &LogLevel::All, &[2]);
    let mut shuffled: Vec<MapResult> = inputs()
        .into_iter()
        .rev()
        .map(|(id, loaded)| analyze_loaded(id, loaded, &LogLevel::All, &[2]))
        .collect();
    shuffled.swap(0, 2);
    let parallel = assemble(shuffled);
    assert_eq!(result_lines(&sequential), result_lines(&parallel));
}

#[test]
fn one_failed_load_leaves_the_others_alone() {
    let good = run_batch(inputs(), &LogLevel::All, &[]);
    let mut broken = inputs();
    broken[0].1 = Err("bad header".to_string());
    let bad = run_batch(broken, &LogLevel::All, &[]);
    for (a, b) in good.iter().zip(bad.iter()) {
        assert_eq!(a.id, b.id);
        if a.id != 5 {
            assert_eq!(result_lines(std::slice::from_ref(a)), result_lines(std::slice::from_ref(b)));
        } else {
            assert!(matches!(&b.outcome, MapOutcome::Failed(m) if m == "bad header"));
        }
    }
}
