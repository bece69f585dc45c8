//! Diagnostics pushed by an external provider: a snapshot of issues for one
//! document, each with a position range, a message and a severity. The core
//! treats a snapshot as an atomic replacement of the previous one and can
//! look the first issue up at a position.

use crate::position::{pos_le, pos_lt, Position};
use crate::selection::Range;
use vstd::prelude::*;

verus! {

#[derive(Debug, Clone, Copy)]
pub enum Severity {
    Error,
    Warning,
    Info,
    Hint,
}

/// An RGBA color for rendering a severity, alpha in percent.
#[derive(Debug, Clone, Copy, PartialEq, Eq, Structural)]
pub struct SeverityColor {
    pub red: u8,
    pub green: u8,
    pub blue: u8,
    pub alpha_percent: u8,
}

impl Severity {
    /// The color a severity is drawn with.
    pub fn color(&self) -> (r: SeverityColor)
        ensures
            r == match *self {
                Severity::Error => SeverityColor { red: 239, green: 48, blue: 84, alpha_percent: 90 },
                Severity::Warning => SeverityColor {
                    red: 245,
                    green: 230,
                    blue: 99,
                    alpha_percent: 90,
                },
                Severity::Info => SeverityColor { red: 71, green: 168, blue: 189, alpha_percent: 90 },
                Severity::Hint => SeverityColor { red: 71, green: 168, blue: 189, alpha_percent: 90 },
            },
    {
        match self {
            Severity::Error => SeverityColor { red: 239, green: 48, blue: 84, alpha_percent: 90 },
            Severity::Warning => SeverityColor { red: 245, green: 230, blue: 99, alpha_percent: 90 },
            Severity::Info => SeverityColor { red: 71, green: 168, blue: 189, alpha_percent: 90 },
            Severity::Hint => SeverityColor { red: 71, green: 168, blue: 189, alpha_percent: 90 },
        }
    }
}

/// A warning or error reported for one span of the document.
#[derive(Debug, Clone)]
pub struct Issue {
    pub range: Range,
    pub code_description: Option<String>,
    pub message: String,
    pub severity: Severity,
}

/// `p` lies within the issue's range, half-open.
pub open spec fn issue_covers(i: Issue, p: Position) -> bool {
    pos_le(i.range.start, p) && pos_lt(p, i.range.end)
}

/// The first issue in the list whose range covers `p`, if any.
pub open spec fn first_issue_at(issues: Seq<Issue>, p: Position) -> Option<Issue>
    decreases issues.len(),
{
    if issues.len() == 0 {
        None
    } else if issue_covers(issues[0], p) {
        Some(issues[0])
    } else {
        first_issue_at(issues.skip(1), p)
    }
}

/// A field-for-field copy of an issue.
fn clone_issue(i: &Issue) -> (r: Issue)
    ensures
        r == *i,
{
    Issue {
        range: i.range,
        code_description: match &i.code_description {
            Some(s) => Some(s.clone()),
            None => None,
        },
        message: i.message.clone(),
        severity: i.severity,
    }
}

/// One provider snapshot: the issues for the document at `uri`.
#[derive(Debug, Clone)]
pub struct ClientDiagnostics {
    pub issues: Vec<Issue>,
    pub uri: String,
}

impl ClientDiagnostics {
    /// The first issue whose range covers `position`, if any.
    pub fn diagnostic_in_position(&self, position: Position) -> (r: Option<Issue>)
        ensures
            r == first_issue_at(self.issues@, position),
    {
        proof {
            assert(self.issues@.skip(0) =~= self.issues@);
        }
        let n = self.issues.len();
        let mut i: usize = 0;
        while i < n
            invariant
                i <= n,
                n == self.issues@.len(),
                first_issue_at(self.issues@, position) == first_issue_at(
                    self.issues@.skip(i as int),
                    position,
                ),
                forall|j: int| 0 <= j < i ==> !issue_covers(self.issues@[j], position),
            decreases n - i,
        {
            proof {
                assert(self.issues@.skip(i as int)[0] == self.issues@[i as int]);
                assert(self.issues@.skip(i as int).skip(1) =~= self.issues@.skip(i + 1));
            }
            let issue = &self.issues[i];
            if issue.range.pos_in_range(position) {
                return Some(clone_issue(issue));
            }
            i = i + 1;
        }
        proof {
            assert(self.issues@.skip(n as int) =~= Seq::<Issue>::empty());
        }
        None
    }
}

} // verus!
