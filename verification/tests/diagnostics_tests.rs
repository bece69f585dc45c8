use editor_core::diagnostics::{ClientDiagnostics, Issue, Severity, SeverityColor};
use editor_core::position::Position;
use editor_core::selection::Range;

fn issue(start: (usize, usize), end: (usize, usize), message: &str) -> Issue {
    Issue {
        range: Range::new(Position::new(start.0, start.1), Position::new(end.0, end.1)),
        code_description: None,
        message: String::from(message),
        severity: Severity::Warning,
    }
}

#[test]
fn test_severity_colors() {
    assert_eq!(
        Severity::Error.color(),
        SeverityColor { red: 239, green: 48, blue: 84, alpha_percent: 90 }
    );
    assert_eq!(
        Severity::Warning.color(),
        SeverityColor { red: 245, green: 230, blue: 99, alpha_percent: 90 }
    );
    assert_eq!(Severity::Info.color(), Severity::Hint.color());
}

#[test]
fn test_first_matching_issue_wins() {
    let diagnostics = ClientDiagnostics {
        issues: vec![
            issue((0, 0), (0, 2), "first"),
            issue((0, 1), (0, 5), "second"),
        ],
        uri: String::from("file:///a.rs"),
    };
    let found = diagnostics.diagnostic_in_position(Position::new(0, 1));
    assert_eq!(found.expect("covered").message, "first");
    let found = diagnostics.diagnostic_in_position(Position::new(0, 3));
    assert_eq!(found.expect("covered").message, "second");
    assert!(diagnostics.diagnostic_in_position(Position::new(1, 0)).is_none());
}
