//! The diagnostic builder: a pure, stateless mapping from one violation to
//! exactly one renderable diagnostic.
//!
//! The message templates are fixed:
//! `Mutation argument '<name>' should be named 'input'.` for argument-name
//! violations and `Input type '<name>' should be named '<expected>'.` for
//! input-type-name violations.  Each diagnostic carries the violation's exact
//! source range and a note suggesting the rename.  No deduplication or
//! merging happens here; rendering is the host's concern.

use vstd::prelude::*;
use crate::ast::TextRange;
use crate::validator::{IssueType, NamingIssue, NamingIssueView};

verus! {

/// The category tag every diagnostic of this pass carries.
pub open spec fn category_name() -> Seq<char> {
    "inputNameConvention"@
}

/// The renderable unit surfaced to the host: category, message, source range
/// and an optional note.
#[derive(Debug, PartialEq, Eq)]
pub struct Diagnostic {
    pub category: String,
    pub message: String,
    pub range: TextRange,
    pub note: Option<String>,
}

/// The ghost view of a [`Diagnostic`].
#[verifier::ext_equal]
pub ghost struct DiagnosticView {
    pub category: Seq<char>,
    pub message: Seq<char>,
    pub range: TextRange,
    pub note: Option<Seq<char>>,
}

impl View for Diagnostic {
    type V = DiagnosticView;

    open spec fn view(&self) -> DiagnosticView {
        DiagnosticView {
            category: self.category@,
            message: self.message@,
            range: self.range,
            note: match self.note {
                Option::Some(n) => Option::Some(n@),
                Option::None => Option::None,
            },
        }
    }
}

/// The views of a sequence of diagnostics.
pub open spec fn diagnostic_views(s: Seq<Diagnostic>) -> Seq<DiagnosticView> {
    s.map_values(|d: Diagnostic| d@)
}

/// The message of a violation.  A violation the validator emits carries an
/// expected name exactly when its kind is `InputTypeName`; an absent expected
/// name renders as the empty name.
pub open spec fn message_of(issue: NamingIssueView) -> Seq<char> {
    match issue.issue_type {
        IssueType::ArgumentName => "Mutation argument '"@ + issue.name
            + "' should be named 'input'."@,
        IssueType::InputTypeName => "Input type '"@ + issue.name + "' should be named '"@ + (
        match issue.expected {
            Option::Some(e) => e,
            Option::None => Seq::empty(),
        }) + "'."@,
    }
}

/// The note attached to every diagnostic of this pass.
pub open spec fn note_text() -> Seq<char> {
    "Rename the argument and its type according to the convention."@
}

/// The diagnostic a violation maps to.
pub open spec fn diagnostic_of(issue: NamingIssueView) -> DiagnosticView {
    DiagnosticView {
        category: category_name(),
        message: message_of(issue),
        range: issue.text_range,
        note: Option::Some(note_text()),
    }
}

/// Converts one violation into its renderable diagnostic.
pub fn to_diagnostic(issue: &NamingIssue) -> (diagnostic: Diagnostic)
    ensures
        diagnostic@ == diagnostic_of(issue@),
{
    let message: String = match issue.issue_type {
        IssueType::ArgumentName => {
            let mut m = String::from_str("Mutation argument '");
            m.append(issue.name.as_str());
            m.append("' should be named 'input'.");
            m
        },
        IssueType::InputTypeName => {
            let mut m = String::from_str("Input type '");
            m.append(issue.name.as_str());
            m.append("' should be named '");
            match &issue.expected {
                Option::Some(e) => m.append(e.as_str()),
                Option::None => (),
            }
            m.append("'.");
            m
        },
    };
    let diagnostic = Diagnostic {
        category: String::from_str("inputNameConvention"),
        message,
        range: issue.text_range,
        note: Option::Some(String::from_str(
            "Rename the argument and its type according to the convention.",
        )),
    };
    proof {
        if issue@.issue_type is InputTypeName && issue@.expected is None {
            assert(message@ =~= message_of(issue@));
        }
        assert(diagnostic@ =~= diagnostic_of(issue@));
    }
    diagnostic
}

} // verus!
