//! The schema query selector.
//!
//! The selector walks the document once, at object-type granularity: it finds
//! the object type named `Mutation` (and, when `scope_queries` is set, the one
//! named `Query`) and yields every field definition of each matched type, in
//! declaration order, exactly once.  When no root type matches, it yields the
//! empty sequence — that is not an error.

use vstd::prelude::*;
use crate::ast::{SchemaDocument, SchemaDocumentView, TypeDefinition, TypeDefinitionView, TypeKind};
use crate::options::InputNameConventionOptions;
use crate::text::str_eq;

verus! {

/// One candidate for validation: the position of a field definition inside a
/// matched root type.
#[derive(Clone, Copy, Debug, PartialEq, Eq, Structural)]
pub struct Candidate {
    /// Index of the matched type definition in the document.
    pub type_index: usize,
    /// Index of the field definition inside that type.
    pub field_index: usize,
}

/// The ghost view of a [`Candidate`].
#[verifier::ext_equal]
pub ghost struct CandidateView {
    pub type_index: int,
    pub field_index: int,
}

impl View for Candidate {
    type V = CandidateView;

    open spec fn view(&self) -> CandidateView {
        CandidateView { type_index: self.type_index as int, field_index: self.field_index as int }
    }
}

/// The views of a sequence of candidates.
pub open spec fn candidate_views(s: Seq<Candidate>) -> Seq<CandidateView> {
    s.map_values(|c: Candidate| c@)
}

/// Whether a type definition is one of the validated root types: an object
/// type named `Mutation` (when `scope_mutations` is set) or `Query` (when
/// `scope_queries` is set).  A type without a name is never selected.
pub open spec fn is_selected_root(
    definition: TypeDefinitionView,
    options: InputNameConventionOptions,
) -> bool {
    definition.kind is ObjectType && match definition.name {
        Option::Some(name) => (options.scope_mutations && name == "Mutation"@) || (
        options.scope_queries && name == "Query"@),
        Option::None => false,
    }
}

/// The candidates contributed by one selected type: all of its `field_count`
/// fields, in declaration order.
pub open spec fn type_candidates(type_index: int, field_count: int) -> Seq<CandidateView> {
    Seq::new(field_count as nat, |i: int| CandidateView { type_index, field_index: i })
}

/// The candidates of the first `definitions.len()` type definitions, in
/// declaration order.
pub open spec fn definitions_candidates(
    definitions: Seq<TypeDefinitionView>,
    options: InputNameConventionOptions,
) -> Seq<CandidateView>
    decreases definitions.len(),
{
    if definitions.len() == 0 {
        Seq::empty()
    } else {
        definitions_candidates(definitions.drop_last(), options) + if is_selected_root(
            definitions.last(),
            options,
        ) {
            type_candidates(definitions.len() - 1, definitions.last().fields.len() as int)
        } else {
            Seq::empty()
        }
    }
}

/// Every field the pass validates, in document declaration order.
pub open spec fn candidates_of(
    document: SchemaDocumentView,
    options: InputNameConventionOptions,
) -> Seq<CandidateView> {
    definitions_candidates(document.definitions, options)
}

/// Every candidate's indices point at a field definition of the document.
pub proof fn lemma_candidates_valid(
    definitions: Seq<TypeDefinitionView>,
    options: InputNameConventionOptions,
)
    ensures
        forall|k: int|
            0 <= k < definitions_candidates(definitions, options).len()
                ==> {
                let c = #[trigger] definitions_candidates(definitions, options)[k];
                &&& 0 <= c.type_index < definitions.len()
                &&& 0 <= c.field_index < definitions[c.type_index].fields.len()
            },
    decreases definitions.len(),
{
    if definitions.len() > 0 {
        lemma_candidates_valid(definitions.drop_last(), options);
    }
}

/// Whether candidate `a` stands strictly before candidate `b` in document
/// declaration order.
pub open spec fn candidate_precedes(a: CandidateView, b: CandidateView) -> bool {
    a.type_index < b.type_index || (a.type_index == b.type_index && a.field_index < b.field_index)
}

/// The candidates come out strictly in declaration order; in particular no
/// field definition is yielded twice in one pass.
pub proof fn lemma_candidates_strictly_ordered(
    definitions: Seq<TypeDefinitionView>,
    options: InputNameConventionOptions,
)
    ensures
        forall|k: int, l: int|
            0 <= k < l < definitions_candidates(definitions, options).len()
                ==> #[trigger] candidate_precedes(
                definitions_candidates(definitions, options)[k],
                definitions_candidates(definitions, options)[l],
            ),
    decreases definitions.len(),
{
    if definitions.len() > 0 {
        lemma_candidates_strictly_ordered(definitions.drop_last(), options);
        lemma_candidates_valid(definitions.drop_last(), options);
    }
}

fn is_selected_root_exec(
    definition: &TypeDefinition,
    options: &InputNameConventionOptions,
) -> (r: bool)
    ensures
        r == is_selected_root(definition@, *options),
{
    match definition.kind {
        TypeKind::ObjectType => match &definition.name {
            Option::Some(name) => (options.scope_mutations && str_eq(name.as_str(), "Mutation"))
                || (options.scope_queries && str_eq(name.as_str(), "Query")),
            Option::None => false,
        },
        _ => false,
    }
}

/// Walks the document once and yields every field definition of each matched
/// root type, in declaration order, each exactly once.
pub fn select(document: &SchemaDocument, options: &InputNameConventionOptions) -> (candidates: Vec<
    Candidate,
>)
    ensures
        candidate_views(candidates@) == candidates_of(document@, *options),
{
    let mut candidates: Vec<Candidate> = Vec::new();
    let definition_count: usize = document.definitions.len();
    let mut t: usize = 0;
    while t < definition_count
        invariant
            definition_count == document.definitions@.len(),
            t <= definition_count,
            candidate_views(candidates@) == definitions_candidates(
                document@.definitions.take(t as int),
                *options,
            ),
        decreases definition_count - t,
    {
        let definition = &document.definitions[t];
        proof {
            assert(definition@ == document@.definitions[t as int]);
        }
        if is_selected_root_exec(definition, options) {
            let field_count: usize = definition.fields.len();
            let mut f: usize = 0;
            while f < field_count
                invariant
                    t < definition_count,
                    field_count == document@.definitions[t as int].fields.len(),
                    f <= field_count,
                    candidate_views(candidates@) == definitions_candidates(
                        document@.definitions.take(t as int),
                        *options,
                    ) + type_candidates(t as int, f as int),
                decreases field_count - f,
            {
                let ghost pre = candidates@;
                candidates.push(Candidate { type_index: t, field_index: f });
                proof {
                    let c = CandidateView { type_index: t as int, field_index: f as int };
                    let prefix = definitions_candidates(
                        document@.definitions.take(t as int),
                        *options,
                    );
                    assert(candidate_views(candidates@) =~= candidate_views(pre).push(c));
                    assert(type_candidates(t as int, f as int + 1) =~= type_candidates(
                        t as int,
                        f as int,
                    ).push(c));
                    assert(prefix + type_candidates(t as int, f as int).push(c) =~= (prefix
                        + type_candidates(t as int, f as int)).push(c));
                }
                f = f + 1;
            }
        }
        proof {
            let taken = document@.definitions.take(t as int + 1);
            assert(taken.drop_last() =~= document@.definitions.take(t as int));
            assert(taken.last() == document@.definitions[t as int]);
            if !is_selected_root(document@.definitions[t as int], *options) {
                assert(candidate_views(candidates@) =~= definitions_candidates(
                    document@.definitions.take(t as int),
                    *options,
                ) + Seq::<CandidateView>::empty());
            }
        }
        t = t + 1;
    }
    proof {
        assert(document@.definitions.take(definition_count as int) =~= document@.definitions);
    }
    candidates
}

} // verus!
