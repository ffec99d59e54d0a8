use input_name::ast::{
    ArgumentDefinition, FieldDefinition, SchemaDocument, TextRange, TypeDefinition, TypeKind,
};
use input_name::options::{InputNameConventionOptions, PartialOptions};
use input_name::selector::select;
use input_name::validator::{run, IssueType};

fn range(start: u32, end: u32) -> TextRange {
    TextRange { start, end }
}

fn argument(name: &str, declared_type: &str, r: TextRange) -> ArgumentDefinition {
    ArgumentDefinition {
        name: Some(name.to_string()),
        declared_type: Some(declared_type.to_string()),
        range: r,
    }
}

fn field(name: &str, arguments: Vec<ArgumentDefinition>, r: TextRange) -> FieldDefinition {
    FieldDefinition {
        name: Some(name.to_string()),
        arguments,
        return_type: Some("String".to_string()),
        range: r,
    }
}

fn typed(kind: TypeKind, name: &str, fields: Vec<FieldDefinition>, r: TextRange) -> TypeDefinition {
    TypeDefinition { kind, name: Some(name.to_string()), fields, range: r }
}

fn bad_field(name: &str, base: u32) -> FieldDefinition {
    field(name, vec![argument("bad", "Worse", range(base + 1, base + 2))], range(base, base + 3))
}

fn defaults() -> InputNameConventionOptions {
    InputNameConventionOptions::default()
}

#[test]
fn no_matching_root_yields_nothing() {
    let doc = SchemaDocument {
        definitions: vec![typed(TypeKind::ObjectType, "User", vec![bad_field("f", 10)], range(0, 20))],
    };
    assert!(select(&doc, &defaults()).is_empty());
    assert!(run(&doc, &defaults()).is_empty());
}

#[test]
fn only_object_types_are_roots() {
    // An input object type named `Mutation` is not the mutation root.
    let doc = SchemaDocument {
        definitions: vec![typed(
            TypeKind::InputObjectType,
            "Mutation",
            vec![bad_field("f", 10)],
            range(0, 20),
        )],
    };
    assert!(run(&doc, &defaults()).is_empty());
}

#[test]
fn unnamed_type_is_never_selected() {
    let doc = SchemaDocument {
        definitions: vec![TypeDefinition {
            kind: TypeKind::ObjectType,
            name: None,
            fields: vec![bad_field("f", 10)],
            range: range(0, 20),
        }],
    };
    assert!(run(&doc, &defaults()).is_empty());
}

#[test]
fn scope_mutations_disabled_skips_mutation_root() {
    let doc = SchemaDocument {
        definitions: vec![typed(TypeKind::ObjectType, "Mutation", vec![bad_field("f", 10)], range(0, 20))],
    };
    let mut options = defaults();
    options.scope_mutations = false;
    assert!(run(&doc, &options).is_empty());
}

#[test]
fn scope_queries_adds_query_root() {
    let doc = SchemaDocument {
        definitions: vec![
            typed(TypeKind::ObjectType, "Query", vec![bad_field("q", 10)], range(0, 20)),
            typed(TypeKind::ObjectType, "Mutation", vec![bad_field("m", 40)], range(30, 50)),
        ],
    };
    // By default the query root is ignored.
    let issues = run(&doc, &defaults());
    assert_eq!(issues.len(), 2);
    assert!(issues.iter().all(|i| i.text_range == range(41, 42)));

    let mut options = defaults();
    options.scope_queries = true;
    let issues = run(&doc, &options);
    assert_eq!(issues.len(), 4);
    assert_eq!(issues[0].text_range, range(11, 12));
    assert_eq!(issues[2].text_range, range(41, 42));
}

#[test]
fn select_yields_each_field_once_in_order() {
    let doc = SchemaDocument {
        definitions: vec![
            typed(TypeKind::ObjectType, "User", vec![bad_field("u", 10)], range(0, 20)),
            typed(
                TypeKind::ObjectType,
                "Mutation",
                vec![bad_field("a", 40), bad_field("b", 50)],
                range(30, 60),
            ),
        ],
    };
    let candidates = select(&doc, &defaults());
    assert_eq!(candidates.len(), 2);
    assert_eq!((candidates[0].type_index, candidates[0].field_index), (1, 0));
    assert_eq!((candidates[1].type_index, candidates[1].field_index), (1, 1));
}

#[test]
fn default_options() {
    let options = InputNameConventionOptions::default();
    assert!(options.check_argument_name);
    assert!(options.check_input_type_name);
    assert!(options.case_sensitive_input_type_name);
    assert!(!options.scope_queries);
    assert!(options.scope_mutations);
}

#[test]
fn resolve_merges_user_flags_over_defaults() {
    let user = PartialOptions {
        check_argument_name: Some(false),
        check_input_type_name: None,
        case_sensitive_input_type_name: Some(false),
        scope_queries: Some(true),
        scope_mutations: None,
    };
    let options = InputNameConventionOptions::resolve(&user);
    assert!(!options.check_argument_name);
    assert!(options.check_input_type_name);
    assert!(!options.case_sensitive_input_type_name);
    assert!(options.scope_queries);
    assert!(options.scope_mutations);

    let empty = PartialOptions::default();
    assert_eq!(InputNameConventionOptions::resolve(&empty), InputNameConventionOptions::default());
}

#[test]
fn case_insensitive_type_match_is_ascii_folding() {
    let doc = SchemaDocument {
        definitions: vec![typed(
            TypeKind::ObjectType,
            "Mutation",
            vec![field("addUser", vec![argument("input", "ADDUSERINPUT", range(12, 38))], range(10, 50))],
            range(0, 60),
        )],
    };
    let mut options = defaults();
    options.case_sensitive_input_type_name = false;
    assert!(run(&doc, &options).is_empty());

    // A genuinely different name still fails under folding.
    let doc = SchemaDocument {
        definitions: vec![typed(
            TypeKind::ObjectType,
            "Mutation",
            vec![field("addUser", vec![argument("input", "ADDUSERS", range(12, 38))], range(10, 50))],
            range(0, 60),
        )],
    };
    let issues = run(&doc, &options);
    assert_eq!(issues.len(), 1);
    assert_eq!(issues[0].issue_type, IssueType::InputTypeName);
}
