use vstd::prelude::*;

verus! {

/// The error type of the PostgreSQL client, carried through unchanged.
#[verifier::external_type_specification]
#[verifier::external_body]
pub struct ExPostgresClientError(postgres::Error);

/// A dynamically typed value that crosses the adapter in either direction.
///
/// `Vector` is the only recursive case. `Number` holds the bit pattern of an
/// IEEE-754 binary64 number.
#[derive(Debug, PartialEq)]
pub enum Value {
    Bool(bool),
    Number(u64),
    Int(i32),
    String(String),
    Bytes(Vec<u8>),
    Void,
    Vector(Vec<Value>),
}

/// A statement parameter, ready to be bound by position.
#[derive(Debug, PartialEq)]
pub enum Param {
    /// A `BOOL` parameter.
    Bool(bool),
    /// A `FLOAT8` parameter, as the bit pattern of the number.
    Float8(u64),
    /// An `INT4` parameter.
    Int4(i32),
    /// A `TEXT` parameter.
    Text(String),
    /// SQL NULL, acceptable in place of a parameter of any type.
    Null,
}

/// The type the server reports for a result column.
#[derive(Debug, Clone, Copy, PartialEq, Eq, Structural)]
pub enum ColumnType {
    Bool,
    Bytea,
    Int8,
    Int2,
    Int4,
    Text,
    /// A type with no decoding rule, by its object identifier.
    Other(u32),
}

/// Object identifier of `bool` in the `pg_type` catalog.
pub const BOOL_OID: u32 = 16;
/// Object identifier of `bytea` in the `pg_type` catalog.
pub const BYTEA_OID: u32 = 17;
/// Object identifier of `int8` in the `pg_type` catalog.
pub const INT8_OID: u32 = 20;
/// Object identifier of `int2` in the `pg_type` catalog.
pub const INT2_OID: u32 = 21;
/// Object identifier of `int4` in the `pg_type` catalog.
pub const INT4_OID: u32 = 23;
/// Object identifier of `text` in the `pg_type` catalog.
pub const TEXT_OID: u32 = 25;

pub open spec fn column_type_of(oid: u32) -> ColumnType {
    if oid == BOOL_OID {
        ColumnType::Bool
    } else if oid == BYTEA_OID {
        ColumnType::Bytea
    } else if oid == INT8_OID {
        ColumnType::Int8
    } else if oid == INT2_OID {
        ColumnType::Int2
    } else if oid == INT4_OID {
        ColumnType::Int4
    } else if oid == TEXT_OID {
        ColumnType::Text
    } else {
        ColumnType::Other(oid)
    }
}

impl ColumnType {
    /// The column type that a type object identifier stands for.
    pub fn from_oid(oid: u32) -> (r: ColumnType)
        ensures
            r == column_type_of(oid),
    {
        if oid == BOOL_OID {
            ColumnType::Bool
        } else if oid == BYTEA_OID {
            ColumnType::Bytea
        } else if oid == INT8_OID {
            ColumnType::Int8
        } else if oid == INT2_OID {
            ColumnType::Int2
        } else if oid == INT4_OID {
            ColumnType::Int4
        } else if oid == TEXT_OID {
            ColumnType::Text
        } else {
            ColumnType::Other(oid)
        }
    }

    /// The type object identifier of this column type.
    pub fn oid(&self) -> (r: u32)
        ensures
            !(self is Other) ==> column_type_of(r) == *self,
            self matches ColumnType::Other(o) ==> r == o,
    {
        match self {
            ColumnType::Bool => BOOL_OID,
            ColumnType::Bytea => BYTEA_OID,
            ColumnType::Int8 => INT8_OID,
            ColumnType::Int2 => INT2_OID,
            ColumnType::Int4 => INT4_OID,
            ColumnType::Text => TEXT_OID,
            ColumnType::Other(o) => *o,
        }
    }

    /// Whether the adapter has a decoding rule for columns of this type.
    pub open spec fn is_supported(self) -> bool {
        !(self is Other)
    }
}

/// The error of every fallible operation of the adapter.
#[derive(Debug)]
pub enum PostgresError {
    /// The database client failed (connection, protocol, SQL or constraint error).
    Error(postgres::Error),
    /// The parameters were not given as a `Vector`.
    TypeMismatch,
    /// The parameter at `index` has no encoding rule (a `Bytes` or a nested `Vector`).
    UnsupportedParameter { index: usize },
    /// The column at `column` of row `row` has a type with no decoding rule.
    UnsupportedColumnType { row: usize, column: usize, oid: u32 },
    /// The bytes of the column at `column` of row `row` do not form a value of its type.
    InvalidColumnData { row: usize, column: usize, oid: u32 },
}

impl PostgresError {
    /// Whether the error comes from the database client rather than from the adapter.
    pub fn is_client_error(&self) -> (r: bool)
        ensures
            r == (self is Error),
    {
        match self {
            PostgresError::Error(_) => true,
            _ => false,
        }
    }
}

impl From<postgres::Error> for PostgresError {
    fn from(e: postgres::Error) -> (r: PostgresError) {
        PostgresError::Error(e)
    }
}

impl vstd::std_specs::convert::FromSpecImpl<postgres::Error> for PostgresError {
    open spec fn obeys_from_spec() -> bool {
        true
    }

    open spec fn from_spec(e: postgres::Error) -> PostgresError {
        PostgresError::Error(e)
    }
}

} // verus!
