//! A naming-convention analysis pass over a parsed GraphQL schema document.
//!
//! The pass locates mutation-style field definitions, checks that their
//! arguments are named `input`, and checks that the primary argument's
//! declared type follows the `<fieldName>Input` convention.  It is a pure
//! function of the schema document and the resolved options: the selector
//! yields candidate fields, the validator turns each candidate into zero or
//! more violations, and the diagnostic builder maps each violation to one
//! renderable diagnostic.

use vstd::prelude::*;

pub mod ast;
pub mod diagnostic;
pub mod options;
pub mod selector;
pub mod text;
pub mod validator;

use crate::ast::SchemaDocument;
use crate::diagnostic::{diagnostic_of, diagnostic_views, to_diagnostic, Diagnostic};
use crate::options::InputNameConventionOptions;
use crate::validator::{document_violations, run, NamingIssueView};

verus! {

/// The diagnostics of a document's violations, in violation order.
pub open spec fn diagnostics_of(violations: Seq<NamingIssueView>) -> Seq<
    diagnostic::DiagnosticView,
> {
    violations.map_values(|v: NamingIssueView| diagnostic_of(v))
}

/// Runs the whole pass and maps each violation to its diagnostic: the
/// ordered sequence of diagnostics the host's sink receives for one
/// document.
pub fn analyze(document: &SchemaDocument, options: &InputNameConventionOptions) -> (diagnostics:
    Vec<Diagnostic>)
    ensures
        diagnostic_views(diagnostics@) == diagnostics_of(
            document_violations(document@, *options),
        ),
{
    let issues = run(document, options);
    let ghost violations = document_violations(document@, *options);
    let mut diagnostics: Vec<Diagnostic> = Vec::new();
    let issue_count: usize = issues.len();
    let mut k: usize = 0;
    while k < issue_count
        invariant
            issue_count == issues@.len(),
            validator::issue_views(issues@) == violations,
            k <= issue_count,
            diagnostic_views(diagnostics@) == diagnostics_of(violations.take(k as int)),
        decreases issue_count - k,
    {
        let issue = &issues[k];
        proof {
            assert(issue@ == violations[k as int]);
        }
        let d = to_diagnostic(issue);
        let ghost pre = diagnostics@;
        diagnostics.push(d);
        proof {
            assert(diagnostic_views(diagnostics@) =~= diagnostic_views(pre).push(d@));
            assert(diagnostics_of(violations.take(k as int + 1)) =~= diagnostics_of(
                violations.take(k as int),
            ).push(diagnostic_of(violations[k as int])));
        }
        k = k + 1;
    }
    proof {
        assert(violations.take(issue_count as int) =~= violations);
    }
    diagnostics
}

} // verus!
