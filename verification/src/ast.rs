//! The schema document model consumed by the analysis pass.
//!
//! The host's parser hands the pass a read-only tree of type definitions,
//! field definitions and argument definitions, each carrying an optional name
//! (a name may be absent while a document is being edited) and a byte source
//! range.  Each node has a ghost view holding the same data over `Seq<char>`,
//! which the contracts of the pass are stated over.

use vstd::prelude::*;

verus! {

/// A half-open byte range `[start, end)` into the source document.
#[derive(Clone, Copy, Debug, PartialEq, Eq, Structural)]
pub struct TextRange {
    pub start: u32,
    pub end: u32,
}

/// The tag of a type definition; only object types can be operation roots.
#[derive(Clone, Copy, Debug, PartialEq, Eq, Structural)]
pub enum TypeKind {
    ObjectType,
    InputObjectType,
    Other,
}

/// One argument of a field definition: `name: TypeName`.
pub struct ArgumentDefinition {
    /// The argument's name, absent on malformed input.
    pub name: Option<String>,
    /// The name of the argument's declared type, absent on malformed input.
    pub declared_type: Option<String>,
    /// The source range of the whole argument definition.
    pub range: TextRange,
}

/// The ghost view of an [`ArgumentDefinition`].
#[verifier::ext_equal]
pub ghost struct ArgumentDefinitionView {
    pub name: Option<Seq<char>>,
    pub declared_type: Option<Seq<char>>,
    pub range: TextRange,
}

impl View for ArgumentDefinition {
    type V = ArgumentDefinitionView;

    open spec fn view(&self) -> ArgumentDefinitionView {
        ArgumentDefinitionView {
            name: match self.name {
                Option::Some(n) => Option::Some(n@),
                Option::None => Option::None,
            },
            declared_type: match self.declared_type {
                Option::Some(t) => Option::Some(t@),
                Option::None => Option::None,
            },
            range: self.range,
        }
    }
}

/// A named, typed member of an object type, optionally carrying arguments.
pub struct FieldDefinition {
    /// The field's name, absent on malformed input.
    pub name: Option<String>,
    /// The field's arguments, in declaration order.
    pub arguments: Vec<ArgumentDefinition>,
    /// The name of the field's declared return type, absent on malformed input.
    pub return_type: Option<String>,
    /// The source range of the whole field definition.
    pub range: TextRange,
}

/// The ghost view of a [`FieldDefinition`].
#[verifier::ext_equal]
pub ghost struct FieldDefinitionView {
    pub name: Option<Seq<char>>,
    pub arguments: Seq<ArgumentDefinitionView>,
    pub return_type: Option<Seq<char>>,
    pub range: TextRange,
}

impl View for FieldDefinition {
    type V = FieldDefinitionView;

    open spec fn view(&self) -> FieldDefinitionView {
        FieldDefinitionView {
            name: match self.name {
                Option::Some(n) => Option::Some(n@),
                Option::None => Option::None,
            },
            arguments: self.arguments@.map_values(|a: ArgumentDefinition| a@),
            return_type: match self.return_type {
                Option::Some(t) => Option::Some(t@),
                Option::None => Option::None,
            },
            range: self.range,
        }
    }
}

/// A named type definition with its fields, in declaration order.
pub struct TypeDefinition {
    pub kind: TypeKind,
    /// The type's name, absent on malformed input.
    pub name: Option<String>,
    /// The type's field definitions, in declaration order.
    pub fields: Vec<FieldDefinition>,
    /// The source range of the whole type definition.
    pub range: TextRange,
}

/// The ghost view of a [`TypeDefinition`].
#[verifier::ext_equal]
pub ghost struct TypeDefinitionView {
    pub kind: TypeKind,
    pub name: Option<Seq<char>>,
    pub fields: Seq<FieldDefinitionView>,
    pub range: TextRange,
}

impl View for TypeDefinition {
    type V = TypeDefinitionView;

    open spec fn view(&self) -> TypeDefinitionView {
        TypeDefinitionView {
            kind: self.kind,
            name: match self.name {
                Option::Some(n) => Option::Some(n@),
                Option::None => Option::None,
            },
            fields: self.fields@.map_values(|f: FieldDefinition| f@),
            range: self.range,
        }
    }
}

/// The immutable root of the parsed schema document: its type definitions in
/// declaration order.  The pass never mutates it.
pub struct SchemaDocument {
    pub definitions: Vec<TypeDefinition>,
}

/// The ghost view of a [`SchemaDocument`].
#[verifier::ext_equal]
pub ghost struct SchemaDocumentView {
    pub definitions: Seq<TypeDefinitionView>,
}

impl View for SchemaDocument {
    type V = SchemaDocumentView;

    open spec fn view(&self) -> SchemaDocumentView {
        SchemaDocumentView { definitions: self.definitions@.map_values(|d: TypeDefinition| d@) }
    }
}

} // verus!
