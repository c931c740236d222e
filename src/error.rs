use vstd::prelude::*;

verus! {

/// Definition-time errors: a declaration that can never yield usable SQL.
#[derive(Clone, Copy, Debug, PartialEq, Eq, Structural)]
pub enum SchemaError {
    /// A field carries more than one `default` annotation.
    DuplicateDefault,
    /// A field carries more than one `foreign_key` annotation.
    DuplicateForeignKey,
    /// A `default` payload is neither a known keyword nor a literal.
    UnrecognizedDefault,
    /// A foreign-key action is not one of the five known actions.
    UnknownAction,
    /// A foreign-key target is not a path of at least two segments.
    MalformedForeignKeyTarget,
    /// An annotation payload does not follow its grammar.
    MalformedAnnotation,
    /// More than one field is flagged `primary_key`.
    MultiplePrimaryKeys,
    /// A `primary_key` field and a `composite_key` field in one table.
    PrimaryAndCompositeKeyConflict,
    /// Fields grouped under one target table declare differing actions.
    ConflictingForeignKeyActions,
    /// A projected field's type differs from its source column's type.
    ProjectionTypeMismatch,
    /// A projected field names a table or column that is not declared.
    UnknownProjectionSource,
    /// A projected field has no `param` annotation.
    MissingParam,
    /// A projected field has more than one `param` annotation.
    DuplicateParam,
    /// A projection has more than one `cte_params` annotation.
    DuplicateCteParams,
}

} // verus!
