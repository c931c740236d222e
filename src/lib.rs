//! Schema-to-SQL compiler: typed table and projection declarations become
//! DDL text, insert statements and parameterised projection queries.

// Scalar types and their storage classes.
pub mod types;
// Text helpers: joining, decimal and quoted literals.
pub mod text;
pub mod error;
// Annotation tokens and the annotation kinds.
pub mod annotation;
// Default values and foreign-key actions.
pub mod literals;
pub mod foreign_key;
// Field and table descriptors and the DDL they give.
pub mod schema;
// Declarations with raw annotations, turned into descriptors.
pub mod table;
// Partial-construction builder and the insert statement.
pub mod builder;
// Row statements: select, delete, drop.
pub mod statements;
// Parameterised projections.
pub mod cte;
// Properties of the generated DDL.
pub mod laws;
