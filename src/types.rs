use vstd::prelude::*;

verus! {

/// The semantic scalar types a column can be declared with.
#[derive(Clone, Copy, Debug, PartialEq, Eq, Structural)]
pub enum ScalarType {
    I8,
    U8,
    I16,
    U16,
    I32,
    U32,
    Isize,
    Usize,
    I64,
    U64,
    Text,
    Float32,
    Float64,
    Bool,
    Date,
    DateTime,
    Bytes,
}

/// A declared column type: a scalar, possibly wrapped as optional.
#[derive(Clone, Copy, Debug, PartialEq, Eq, Structural)]
pub enum FieldType {
    Required(ScalarType),
    Optional(ScalarType),
}

/// The SQL storage class of a scalar type.
pub open spec fn storage_class(t: ScalarType) -> Seq<char> {
    match t {
        ScalarType::I8 | ScalarType::U8 => "TINYINT"@,
        ScalarType::I16 | ScalarType::U16 => "SMALLINT"@,
        ScalarType::I32 | ScalarType::U32 | ScalarType::Isize | ScalarType::Usize => "INTEGER"@,
        ScalarType::I64 => "BIGINT"@,
        ScalarType::U64 => "UNSIGNED BIG INT"@,
        ScalarType::Text => "TEXT"@,
        ScalarType::Float32 => "FLOAT"@,
        ScalarType::Float64 => "DOUBLE"@,
        ScalarType::Bool => "BOOLEAN"@,
        ScalarType::Date => "DATE"@,
        ScalarType::DateTime => "DATETIME"@,
        ScalarType::Bytes => "BLOB"@,
    }
}

impl FieldType {
    /// The scalar type, with any optional wrapper removed.
    pub open spec fn spec_scalar(self) -> ScalarType {
        match self {
            FieldType::Required(s) => s,
            FieldType::Optional(s) => s,
        }
    }

    #[verifier::when_used_as_spec(spec_scalar)]
    pub fn scalar(self) -> (r: ScalarType)
        ensures
            r == self.spec_scalar(),
    {
        match self {
            FieldType::Required(s) => s,
            FieldType::Optional(s) => s,
        }
    }

    pub open spec fn spec_is_optional(self) -> bool {
        self is Optional
    }

    /// Whether the column may hold NULL.
    #[verifier::when_used_as_spec(spec_is_optional)]
    pub fn is_optional(self) -> (r: bool)
        ensures
            r == self.spec_is_optional(),
    {
        match self {
            FieldType::Required(_) => false,
            FieldType::Optional(_) => true,
        }
    }

    /// The SQL storage class of the column; an optional type has the
    /// storage class of its inner type.
    pub fn storage_type(self) -> (r: &'static str)
        ensures
            r@ == storage_class(self.spec_scalar()),
    {
        self.scalar().storage_type()
    }
}

impl ScalarType {
    pub fn storage_type(self) -> (r: &'static str)
        ensures
            r@ == storage_class(self),
    {
        match self {
            ScalarType::I8 | ScalarType::U8 => "TINYINT",
            ScalarType::I16 | ScalarType::U16 => "SMALLINT",
            ScalarType::I32 | ScalarType::U32 | ScalarType::Isize | ScalarType::Usize => "INTEGER",
            ScalarType::I64 => "BIGINT",
            ScalarType::U64 => "UNSIGNED BIG INT",
            ScalarType::Text => "TEXT",
            ScalarType::Float32 => "FLOAT",
            ScalarType::Float64 => "DOUBLE",
            ScalarType::Bool => "BOOLEAN",
            ScalarType::Date => "DATE",
            ScalarType::DateTime => "DATETIME",
            ScalarType::Bytes => "BLOB",
        }
    }
}

/// A Rust value type that can be stored in a column.
pub trait DbType {
    spec fn spec_field_type() -> FieldType;

    /// The declared column type of values of this type.
    fn field_type() -> (r: FieldType)
        ensures
            r == Self::spec_field_type(),
    ;

    /// The SQL storage class of values of this type.
    fn db_type() -> (r: &'static str)
        ensures
            r@ == storage_class(Self::spec_field_type().spec_scalar()),
    ;
}

impl DbType for i8 {
    open spec fn spec_field_type() -> FieldType {
        FieldType::Required(ScalarType::I8)
    }

    fn field_type() -> (r: FieldType) {
        FieldType::Required(ScalarType::I8)
    }

    fn db_type() -> (r: &'static str) {
        ScalarType::I8.storage_type()
    }
}

impl DbType for u8 {
    open spec fn spec_field_type() -> FieldType {
        FieldType::Required(ScalarType::U8)
    }

    fn field_type() -> (r: FieldType) {
        FieldType::Required(ScalarType::U8)
    }

    fn db_type() -> (r: &'static str) {
        ScalarType::U8.storage_type()
    }
}

impl DbType for i16 {
    open spec fn spec_field_type() -> FieldType {
        FieldType::Required(ScalarType::I16)
    }

    fn field_type() -> (r: FieldType) {
        FieldType::Required(ScalarType::I16)
    }

    fn db_type() -> (r: &'static str) {
        ScalarType::I16.storage_type()
    }
}

impl DbType for u16 {
    open spec fn spec_field_type() -> FieldType {
        FieldType::Required(ScalarType::U16)
    }

    fn field_type() -> (r: FieldType) {
        FieldType::Required(ScalarType::U16)
    }

    fn db_type() -> (r: &'static str) {
        ScalarType::U16.storage_type()
    }
}

impl DbType for i32 {
    open spec fn spec_field_type() -> FieldType {
        FieldType::Required(ScalarType::I32)
    }

    fn field_type() -> (r: FieldType) {
        FieldType::Required(ScalarType::I32)
    }

    fn db_type() -> (r: &'static str) {
        ScalarType::I32.storage_type()
    }
}

impl DbType for u32 {
    open spec fn spec_field_type() -> FieldType {
        FieldType::Required(ScalarType::U32)
    }

    fn field_type() -> (r: FieldType) {
        FieldType::Required(ScalarType::U32)
    }

    fn db_type() -> (r: &'static str) {
        ScalarType::U32.storage_type()
    }
}

impl DbType for isize {
    open spec fn spec_field_type() -> FieldType {
        FieldType::Required(ScalarType::Isize)
    }

    fn field_type() -> (r: FieldType) {
        FieldType::Required(ScalarType::Isize)
    }

    fn db_type() -> (r: &'static str) {
        ScalarType::Isize.storage_type()
    }
}

impl DbType for usize {
    open spec fn spec_field_type() -> FieldType {
        FieldType::Required(ScalarType::Usize)
    }

    fn field_type() -> (r: FieldType) {
        FieldType::Required(ScalarType::Usize)
    }

    fn db_type() -> (r: &'static str) {
        ScalarType::Usize.storage_type()
    }
}

impl DbType for i64 {
    open spec fn spec_field_type() -> FieldType {
        FieldType::Required(ScalarType::I64)
    }

    fn field_type() -> (r: FieldType) {
        FieldType::Required(ScalarType::I64)
    }

    fn db_type() -> (r: &'static str) {
        ScalarType::I64.storage_type()
    }
}

impl DbType for u64 {
    open spec fn spec_field_type() -> FieldType {
        FieldType::Required(ScalarType::U64)
    }

    fn field_type() -> (r: FieldType) {
        FieldType::Required(ScalarType::U64)
    }

    fn db_type() -> (r: &'static str) {
        ScalarType::U64.storage_type()
    }
}

impl DbType for String {
    open spec fn spec_field_type() -> FieldType {
        FieldType::Required(ScalarType::Text)
    }

    fn field_type() -> (r: FieldType) {
        FieldType::Required(ScalarType::Text)
    }

    fn db_type() -> (r: &'static str) {
        ScalarType::Text.storage_type()
    }
}

impl DbType for bool {
    open spec fn spec_field_type() -> FieldType {
        FieldType::Required(ScalarType::Bool)
    }

    fn field_type() -> (r: FieldType) {
        FieldType::Required(ScalarType::Bool)
    }

    fn db_type() -> (r: &'static str) {
        ScalarType::Bool.storage_type()
    }
}

impl DbType for Vec<u8> {
    open spec fn spec_field_type() -> FieldType {
        FieldType::Required(ScalarType::Bytes)
    }

    fn field_type() -> (r: FieldType) {
        FieldType::Required(ScalarType::Bytes)
    }

    fn db_type() -> (r: &'static str) {
        ScalarType::Bytes.storage_type()
    }
}

impl<T: DbType> DbType for Option<T> {
    open spec fn spec_field_type() -> FieldType {
        FieldType::Optional(T::spec_field_type().spec_scalar())
    }

    fn field_type() -> (r: FieldType) {
        FieldType::Optional(T::field_type().scalar())
    }

    fn db_type() -> (r: &'static str) {
        T::db_type()
    }
}

} // verus!
