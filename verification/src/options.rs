//! The resolved configuration of the analysis pass.
//!
//! The host's configuration layer hands the pass a partial set of flags; the
//! resolver merges it over the defaults into an immutable options value that
//! holds for the whole pass.  Unrecognized configuration keys are the host's
//! concern and never reach this type.

use vstd::prelude::*;

verus! {

/// The resolved, immutable options of one analysis pass.
#[derive(Clone, Copy, Debug, PartialEq, Eq, Structural)]
pub struct InputNameConventionOptions {
    /// Enables the argument-name check (default `true`).
    pub check_argument_name: bool,
    /// Enables the input-type-name check (default `true`).
    pub check_input_type_name: bool,
    /// Whether the type-name comparison is case-sensitive (default `true`).
    pub case_sensitive_input_type_name: bool,
    /// Whether the query root type is also validated (default `false`).
    pub scope_queries: bool,
    /// Whether the mutation root type is validated (default `true`).
    pub scope_mutations: bool,
}

/// A partial, user-supplied set of flags; an absent flag keeps its default.
#[derive(Clone, Copy, Debug, Default)]
pub struct PartialOptions {
    pub check_argument_name: Option<bool>,
    pub check_input_type_name: Option<bool>,
    pub case_sensitive_input_type_name: Option<bool>,
    pub scope_queries: Option<bool>,
    pub scope_mutations: Option<bool>,
}

/// What [`InputNameConventionOptions::resolve`] returns: each user-supplied
/// flag overrides its default.
pub open spec fn resolved_options(user: PartialOptions) -> InputNameConventionOptions {
    InputNameConventionOptions {
        check_argument_name: match user.check_argument_name {
            Option::Some(b) => b,
            Option::None => true,
        },
        check_input_type_name: match user.check_input_type_name {
            Option::Some(b) => b,
            Option::None => true,
        },
        case_sensitive_input_type_name: match user.case_sensitive_input_type_name {
            Option::Some(b) => b,
            Option::None => true,
        },
        scope_queries: match user.scope_queries {
            Option::Some(b) => b,
            Option::None => false,
        },
        scope_mutations: match user.scope_mutations {
            Option::Some(b) => b,
            Option::None => true,
        },
    }
}

impl InputNameConventionOptions {
    /// Merges a partial user object over the defaults.
    pub fn resolve(user: &PartialOptions) -> (options: Self)
        ensures
            options == resolved_options(*user),
    {
        InputNameConventionOptions {
            check_argument_name: match user.check_argument_name {
                Option::Some(b) => b,
                Option::None => true,
            },
            check_input_type_name: match user.check_input_type_name {
                Option::Some(b) => b,
                Option::None => true,
            },
            case_sensitive_input_type_name: match user.case_sensitive_input_type_name {
                Option::Some(b) => b,
                Option::None => true,
            },
            scope_queries: match user.scope_queries {
                Option::Some(b) => b,
                Option::None => false,
            },
            scope_mutations: match user.scope_mutations {
                Option::Some(b) => b,
                Option::None => true,
            },
        }
    }
}

impl Default for InputNameConventionOptions {
    /// The defaults: both checks on, case-sensitive comparison, mutation root
    /// validated, query root not validated.
    fn default() -> (options: Self)
        ensures
            options == resolved_options(PartialOptions {
                check_argument_name: Option::None,
                check_input_type_name: Option::None,
                case_sensitive_input_type_name: Option::None,
                scope_queries: Option::None,
                scope_mutations: Option::None,
            }),
    {
        InputNameConventionOptions {
            check_argument_name: true,
            check_input_type_name: true,
            case_sensitive_input_type_name: true,
            scope_queries: false,
            scope_mutations: true,
        }
    }
}

} // verus!
