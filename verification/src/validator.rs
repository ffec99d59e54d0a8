//! The naming validator: the core algorithm of the pass.
//!
//! For each candidate field the selector yields, in order: when the
//! argument-name check is on, every argument not named exactly `input`
//! (always case-sensitive) yields an `ArgumentName` violation; when the
//! input-type-name check is on and the field has at least one argument, the
//! first-declared argument's type name is compared against
//! `<fieldName>Input` under the configured case policy, and a mismatch
//! yields an `InputTypeName` violation.  A node without a resolvable name is
//! skipped — fail-open, never an error — and a field with no arguments yields
//! nothing.  The emitted sequence follows document declaration order.

use vstd::prelude::*;
use crate::ast::{
    ArgumentDefinitionView, FieldDefinition, FieldDefinitionView, SchemaDocument,
    SchemaDocumentView, TextRange,
};
use crate::options::InputNameConventionOptions;
use crate::selector::{candidates_of, candidate_views, lemma_candidates_valid, select, CandidateView};
use crate::text::{names_match, str_eq, str_eq_ignore_ascii_case};

verus! {

/// The kind of a detected deviation.
#[derive(Clone, Copy, Debug, PartialEq, Eq, Structural)]
pub enum IssueType {
    /// An argument is not named `input`.
    ArgumentName,
    /// The primary argument's type is not named `<fieldName>Input`.
    InputTypeName,
}

/// One detected deviation from the naming convention, prior to rendering.
#[derive(Debug, PartialEq, Eq)]
pub struct NamingIssue {
    /// Which check the node failed.
    pub issue_type: IssueType,
    /// The offending name as it stands in the document.
    pub name: String,
    /// The expected type name; present exactly for `InputTypeName` issues.
    pub expected: Option<String>,
    /// The source range of the offending argument definition.
    pub text_range: TextRange,
}

/// The ghost view of a [`NamingIssue`].
#[verifier::ext_equal]
pub ghost struct NamingIssueView {
    pub issue_type: IssueType,
    pub name: Seq<char>,
    pub expected: Option<Seq<char>>,
    pub text_range: TextRange,
}

impl View for NamingIssue {
    type V = NamingIssueView;

    open spec fn view(&self) -> NamingIssueView {
        NamingIssueView {
            issue_type: self.issue_type,
            name: self.name@,
            expected: match self.expected {
                Option::Some(e) => Option::Some(e@),
                Option::None => Option::None,
            },
            text_range: self.text_range,
        }
    }
}

/// The views of a sequence of issues.
pub open spec fn issue_views(s: Seq<NamingIssue>) -> Seq<NamingIssueView> {
    s.map_values(|i: NamingIssue| i@)
}

/// The expected name of a mutation field's input type: the field's own name
/// with `Input` appended.
pub open spec fn expected_type_name(field_name: Seq<char>) -> Seq<char> {
    field_name + "Input"@
}

/// The violation an argument's name yields: `None` when the name resolves to
/// exactly `input`, or does not resolve at all.
pub open spec fn argument_name_violation(argument: ArgumentDefinitionView) -> Option<
    NamingIssueView,
> {
    match argument.name {
        Option::Some(name) => if name == "input"@ {
            Option::None
        } else {
            Option::Some(NamingIssueView {
                issue_type: IssueType::ArgumentName,
                name,
                expected: Option::None,
                text_range: argument.range,
            })
        },
        Option::None => Option::None,
    }
}

/// The violation a field's primary (first-declared) argument type yields.
/// Only meaningful for fields with at least one argument; `None` whenever the
/// field name or the argument's type name does not resolve.
pub open spec fn input_type_violation(
    field: FieldDefinitionView,
    options: InputNameConventionOptions,
) -> Option<NamingIssueView> {
    match (field.name, field.arguments[0].declared_type) {
        (Option::Some(field_name), Option::Some(declared)) => {
            let expected = expected_type_name(field_name);
            if names_match(declared, expected, options.case_sensitive_input_type_name) {
                Option::None
            } else {
                Option::Some(NamingIssueView {
                    issue_type: IssueType::InputTypeName,
                    name: declared,
                    expected: Option::Some(expected),
                    text_range: field.arguments[0].range,
                })
            }
        },
        _ => Option::None,
    }
}

/// An optional violation as a sequence of zero or one elements.
pub open spec fn violation_seq(v: Option<NamingIssueView>) -> Seq<NamingIssueView> {
    match v {
        Option::Some(issue) => seq![issue],
        Option::None => Seq::empty(),
    }
}

/// The `ArgumentName` violations of the given arguments, in declaration
/// order.
pub open spec fn arguments_name_violations(arguments: Seq<ArgumentDefinitionView>) -> Seq<
    NamingIssueView,
>
    decreases arguments.len(),
{
    if arguments.len() == 0 {
        Seq::empty()
    } else {
        arguments_name_violations(arguments.drop_last()) + violation_seq(
            argument_name_violation(arguments.last()),
        )
    }
}

/// Every violation one field definition yields, in order: the argument-name
/// violations of its arguments, then the primary argument's type violation.
pub open spec fn field_violations(
    field: FieldDefinitionView,
    options: InputNameConventionOptions,
) -> Seq<NamingIssueView> {
    (if options.check_argument_name {
        arguments_name_violations(field.arguments)
    } else {
        Seq::empty()
    }) + (if options.check_input_type_name && field.arguments.len() > 0 {
        violation_seq(input_type_violation(field, options))
    } else {
        Seq::empty()
    })
}

/// The violations of a sequence of candidates of the document, concatenated
/// in candidate order.
pub open spec fn candidates_violations(
    document: SchemaDocumentView,
    candidates: Seq<CandidateView>,
    options: InputNameConventionOptions,
) -> Seq<NamingIssueView>
    decreases candidates.len(),
{
    if candidates.len() == 0 {
        Seq::empty()
    } else {
        candidates_violations(document, candidates.drop_last(), options) + field_violations(
            document.definitions[candidates.last().type_index].fields[candidates.last().field_index],
            options,
        )
    }
}

/// Every violation the pass emits for a document: the violations of all
/// selected candidates, in document declaration order.
pub open spec fn document_violations(
    document: SchemaDocumentView,
    options: InputNameConventionOptions,
) -> Seq<NamingIssueView> {
    candidates_violations(document, candidates_of(document, options), options)
}

/// Validates one candidate field definition and returns its violations, in
/// order.
pub fn validate(field: &FieldDefinition, options: &InputNameConventionOptions) -> (issues: Vec<
    NamingIssue,
>)
    ensures
        issue_views(issues@) == field_violations(field@, *options),
{
    let mut issues: Vec<NamingIssue> = Vec::new();
    if options.check_argument_name {
        let argument_count: usize = field.arguments.len();
        let mut i: usize = 0;
        while i < argument_count
            invariant
                argument_count == field.arguments@.len(),
                field@.arguments.len() == field.arguments@.len(),
                i <= argument_count,
                issue_views(issues@) == arguments_name_violations(field@.arguments.take(i as int)),
            decreases argument_count - i,
        {
            let argument = &field.arguments[i];
            proof {
                assert(argument@ == field@.arguments[i as int]);
            }
            match &argument.name {
                Option::Some(name) => {
                    if !str_eq(name.as_str(), "input") {
                        issues.push(NamingIssue {
                            issue_type: IssueType::ArgumentName,
                            name: name.clone(),
                            expected: Option::None,
                            text_range: argument.range,
                        });
                    }
                },
                Option::None => {},
            }
            proof {
                let taken = field@.arguments.take(i as int + 1);
                assert(taken.drop_last() =~= field@.arguments.take(i as int));
                assert(taken.last() == field@.arguments[i as int]);
                assert(issue_views(issues@) =~= arguments_name_violations(
                    field@.arguments.take(i as int),
                ) + violation_seq(argument_name_violation(field@.arguments[i as int])));
            }
            i = i + 1;
        }
        proof {
            assert(field@.arguments.take(argument_count as int) =~= field@.arguments);
        }
    }
    if options.check_input_type_name && field.arguments.len() > 0 {
        let ghost pre = issues@;
        let primary = &field.arguments[0];
        proof {
            assert(primary@ == field@.arguments[0]);
        }
        match (&field.name, &primary.declared_type) {
            (Option::Some(field_name), Option::Some(declared)) => {
                let mut expected: String = field_name.clone();
                expected.append("Input");
                let matched: bool = if options.case_sensitive_input_type_name {
                    str_eq(declared.as_str(), expected.as_str())
                } else {
                    str_eq_ignore_ascii_case(declared.as_str(), expected.as_str())
                };
                if !matched {
                    issues.push(NamingIssue {
                        issue_type: IssueType::InputTypeName,
                        name: declared.clone(),
                        expected: Option::Some(expected),
                        text_range: primary.range,
                    });
                }
            },
            _ => {},
        }
        proof {
            assert(issue_views(issues@) =~= issue_views(pre) + violation_seq(
                input_type_violation(field@, *options),
            ));
        }
    }
    proof {
        assert(issue_views(issues@) =~= field_violations(field@, *options));
    }
    issues
}

/// Runs the whole pass: selects the candidate fields and validates each, in
/// order.  The result is exactly `document_violations(document@, *options)` —
/// a function of the document and options alone, so repeated runs emit
/// identical sequences.
pub fn run(document: &SchemaDocument, options: &InputNameConventionOptions) -> (issues: Vec<
    NamingIssue,
>)
    ensures
        issue_views(issues@) == document_violations(document@, *options),
{
    let candidates = select(document, options);
    proof {
        lemma_candidates_valid(document@.definitions, *options);
    }
    let mut issues: Vec<NamingIssue> = Vec::new();
    let candidate_count: usize = candidates.len();
    let ghost all = candidates_of(document@, *options);
    let mut k: usize = 0;
    while k < candidate_count
        invariant
            candidate_count == candidates@.len(),
            candidate_views(candidates@) == all,
            all == candidates_of(document@, *options),
            forall|m: int|
                0 <= m < all.len() ==> {
                    let c = #[trigger] all[m];
                    &&& 0 <= c.type_index < document@.definitions.len()
                    &&& 0 <= c.field_index < document@.definitions[c.type_index].fields.len()
                },
            document@.definitions.len() == document.definitions@.len(),
            k <= candidate_count,
            issue_views(issues@) == candidates_violations(document@, all.take(k as int), *options),
        decreases candidate_count - k,
    {
        let candidate = candidates[k];
        proof {
            assert(candidate@ == all[k as int]);
            assert(document@.definitions[candidate.type_index as int]
                == document.definitions@[candidate.type_index as int]@);
        }
        let definition = &document.definitions[candidate.type_index];
        let field = &definition.fields[candidate.field_index];
        proof {
            assert(field@ == document@.definitions[candidate.type_index as int].fields[
                candidate.field_index as int]);
        }
        let ghost pre = issues@;
        let mut found = validate(field, options);
        issues.append(&mut found);
        proof {
            let taken = all.take(k as int + 1);
            assert(taken.drop_last() =~= all.take(k as int));
            assert(taken.last() == all[k as int]);
            assert(issue_views(issues@) =~= issue_views(pre) + field_violations(
                field@,
                *options,
            ));
        }
        k = k + 1;
    }
    proof {
        assert(all.take(candidate_count as int) =~= all);
    }
    issues
}

/// A field definition with zero arguments yields zero violations, whatever
/// the options say.
pub proof fn lemma_no_arguments_no_violations(
    field: FieldDefinitionView,
    options: InputNameConventionOptions,
)
    requires
        field.arguments.len() == 0,
    ensures
        field_violations(field, options) == Seq::<NamingIssueView>::empty(),
{
    assert(field_violations(field, options) =~= Seq::<NamingIssueView>::empty());
}

/// Arguments named exactly `input` yield no `ArgumentName` violations.
proof fn lemma_input_named_arguments_yield_nothing(arguments: Seq<ArgumentDefinitionView>)
    requires
        forall|k: int|
            0 <= k < arguments.len() ==> arguments[k].name == Option::Some("input"@),
    ensures
        arguments_name_violations(arguments) == Seq::<NamingIssueView>::empty(),
    decreases arguments.len(),
{
    if arguments.len() > 0 {
        lemma_input_named_arguments_yield_nothing(arguments.drop_last());
        assert(arguments.last() == arguments[arguments.len() - 1]);
        assert(arguments_name_violations(arguments) =~= Seq::<NamingIssueView>::empty());
    }
}

/// When every argument of a field is named exactly `input`, the field yields
/// no `ArgumentName` violation — whatever the options, and in particular
/// whatever `case_sensitive_input_type_name` says: the argument-name
/// comparison is always case-sensitive and the name matches exactly.
pub proof fn lemma_input_named_arguments_no_name_violation(
    field: FieldDefinitionView,
    options: InputNameConventionOptions,
)
    requires
        forall|k: int|
            0 <= k < field.arguments.len() ==> field.arguments[k].name == Option::Some("input"@),
    ensures
        forall|m: int|
            0 <= m < field_violations(field, options).len()
                ==> #[trigger] field_violations(field, options)[m].issue_type is InputTypeName,
{
    lemma_input_named_arguments_yield_nothing(field.arguments);
}

/// The pass is deterministic: it is a function of the document and options
/// views alone, so two runs over the same document and options emit
/// identical violation sequences, in the same order.  Together with the
/// `ensures` of [`run`], which pins its result to `document_violations`,
/// this makes repeated runs indistinguishable.
pub proof fn lemma_pass_deterministic(
    first_document: SchemaDocumentView,
    second_document: SchemaDocumentView,
    first_options: InputNameConventionOptions,
    second_options: InputNameConventionOptions,
)
    requires
        first_document == second_document,
        first_options == second_options,
    ensures
        document_violations(first_document, first_options) == document_violations(
            second_document,
            second_options,
        ),
{
}

/// Concatenating candidate sequences concatenates their violations.
proof fn lemma_candidates_violations_concat(
    document: SchemaDocumentView,
    left: Seq<CandidateView>,
    right: Seq<CandidateView>,
    options: InputNameConventionOptions,
)
    ensures
        candidates_violations(document, left + right, options) == candidates_violations(
            document,
            left,
            options,
        ) + candidates_violations(document, right, options),
    decreases right.len(),
{
    if right.len() == 0 {
        assert(left + right =~= left);
        assert(candidates_violations(document, left, options) + candidates_violations(
            document,
            right,
            options,
        ) =~= candidates_violations(document, left, options));
    } else {
        lemma_candidates_violations_concat(document, left, right.drop_last(), options);
        assert((left + right).drop_last() =~= left + right.drop_last());
        assert((left + right).last() == right.last());
        assert(candidates_violations(document, left + right, options) =~= candidates_violations(
            document,
            left,
            options,
        ) + candidates_violations(document, right, options));
    }
}

/// A single candidate contributes exactly its field's violations.
proof fn lemma_single_candidate_violations(
    document: SchemaDocumentView,
    c: CandidateView,
    options: InputNameConventionOptions,
)
    ensures
        candidates_violations(document, seq![c], options) == field_violations(
            document.definitions[c.type_index].fields[c.field_index],
            options,
        ),
{
    let one = seq![c];
    assert(one.len() == 1);
    assert(one.last() == c);
    assert(one.drop_last() =~= Seq::<CandidateView>::empty());
    assert(candidates_violations(document, one.drop_last(), options) == Seq::<
        NamingIssueView,
    >::empty());
    assert(candidates_violations(document, one, options) =~= field_violations(
        document.definitions[c.type_index].fields[c.field_index],
        options,
    ));
}

/// How many violations the candidates before candidate `k` contribute: the
/// index in the output at which candidate `k`'s own violations begin.
pub open spec fn violations_before(
    document: SchemaDocumentView,
    options: InputNameConventionOptions,
    k: int,
) -> int {
    candidates_violations(document, candidates_of(document, options).take(k), options).len() as int
}

/// The field definition candidate `k` points at.
pub open spec fn candidate_field(
    document: SchemaDocumentView,
    options: InputNameConventionOptions,
    k: int,
) -> FieldDefinitionView {
    document.definitions[candidates_of(document, options)[k].type_index].fields[candidates_of(
        document,
        options,
    )[k].field_index]
}

/// Candidate `k`'s violations stand contiguously in the output, starting at
/// `violations_before(document, options, k)`.
pub proof fn lemma_candidate_violations_position(
    document: SchemaDocumentView,
    options: InputNameConventionOptions,
    k: int,
)
    requires
        0 <= k < candidates_of(document, options).len(),
    ensures
        violations_before(document, options, k) + field_violations(
            candidate_field(document, options, k),
            options,
        ).len() <= document_violations(document, options).len(),
        forall|m: int|
            0 <= m < field_violations(candidate_field(document, options, k), options).len()
                ==> #[trigger] document_violations(document, options)[violations_before(
                document,
                options,
                k,
            ) + m] == field_violations(candidate_field(document, options, k), options)[m],
{
    let all = candidates_of(document, options);
    let one = seq![all[k]];
    let rest = all.subrange(k + 1, all.len() as int);
    assert(all =~= all.take(k) + one + rest);
    lemma_candidates_violations_concat(document, all.take(k) + one, rest, options);
    lemma_candidates_violations_concat(document, all.take(k), one, options);
    lemma_single_candidate_violations(document, all[k], options);
}

/// Declaration order is kept: the violations of a candidate declared earlier
/// all precede the violations of any candidate declared later.  In
/// particular, when two mutation fields each yield a violation, the earlier
/// field's violation stands at a strictly smaller output index.
pub proof fn lemma_declaration_order_kept(
    document: SchemaDocumentView,
    options: InputNameConventionOptions,
    i: int,
    j: int,
)
    requires
        0 <= i < j < candidates_of(document, options).len(),
    ensures
        violations_before(document, options, i) + field_violations(
            candidate_field(document, options, i),
            options,
        ).len() <= violations_before(document, options, j),
{
    let all = candidates_of(document, options);
    let one = seq![all[i]];
    let mid = all.subrange(i + 1, j);
    assert(all.take(j) =~= all.take(i) + one + mid);
    lemma_candidates_violations_concat(document, all.take(i) + one, mid, options);
    lemma_candidates_violations_concat(document, all.take(i), one, options);
    lemma_single_candidate_violations(document, all[i], options);
}

} // verus!

