//! The row decoder: result columns, each with the type the server reported,
//! become dynamic values.
use vstd::prelude::*;

use crate::value::{column_type_of, ColumnType, PostgresError, Value};
use crate::wire::{
    be_signed, bool_from_wire, bytea_from_wire, int2_from_wire, int4_from_wire, int8_from_wire,
    text_from_wire, utf8_text,
};

verus! {

/// One column of a result row as the server sent it: the object identifier of
/// the column's type and the value in binary format, `None` for SQL NULL.
pub struct RawColumn {
    pub oid: u32,
    pub data: Option<Vec<u8>>,
}

/// Why a column cannot be decoded.
pub enum ColumnFault {
    /// Its type has no decoding rule.
    Unsupported,
    /// Its bytes do not form a value of its type.
    Invalid,
}

/// Why a column of type `oid` holding `data` (`None` for SQL NULL) cannot be
/// decoded, or `None` when it can.
pub open spec fn column_fault(oid: u32, data: Option<Seq<u8>>) -> Option<ColumnFault> {
    match column_type_of(oid) {
        ColumnType::Other(_) => Some(ColumnFault::Unsupported),
        ty => match data {
            None => None,
            Some(d) => {
                let ok = match ty {
                    ColumnType::Bool => d.len() == 1,
                    ColumnType::Int2 => d.len() == 2,
                    ColumnType::Int4 => d.len() == 4,
                    ColumnType::Int8 => d.len() == 8,
                    ColumnType::Text => utf8_text(d) is Some,
                    _ => true,
                };
                if ok {
                    None
                } else {
                    Some(ColumnFault::Invalid)
                }
            },
        },
    }
}

/// Whether `v` is the value that a column of type `oid` holding `data` decodes to.
///
/// SQL NULL is `Void` in a column of any supported type. `INT2` and `INT4`
/// values are kept exactly; an `INT8` value is narrowed to its low 32 bits.
pub open spec fn column_decodes_to(oid: u32, data: Option<Seq<u8>>, v: Value) -> bool {
    match data {
        None => column_type_of(oid).is_supported() && v is Void,
        Some(d) => match column_type_of(oid) {
            ColumnType::Bool => d.len() == 1 && v == Value::Bool(d[0] != 0),
            ColumnType::Int2 => d.len() == 2 && (v matches Value::Int(x) && x as int == be_signed(d)),
            ColumnType::Int4 => d.len() == 4 && (v matches Value::Int(x) && x as int == be_signed(d)),
            ColumnType::Int8 => d.len() == 8 && (v matches Value::Int(x) && x == be_signed(d) as i32),
            ColumnType::Text => v matches Value::String(s) && utf8_text(d) == Some(s@),
            ColumnType::Bytea => v matches Value::Bytes(b) && b@ == d,
            ColumnType::Other(_) => false,
        },
    }
}

impl RawColumn {
    /// The column's bytes, `None` for SQL NULL.
    pub open spec fn bytes(&self) -> Option<Seq<u8>> {
        match self.data {
            Some(d) => Some(d@),
            None => None,
        }
    }

    /// Why the column cannot be decoded, or `None` when it can.
    pub open spec fn fault(&self) -> Option<ColumnFault> {
        column_fault(self.oid, self.bytes())
    }

    /// Whether `v` is the value this column decodes to.
    pub open spec fn decodes_to(&self, v: Value) -> bool {
        column_decodes_to(self.oid, self.bytes(), v)
    }

    /// The error reported for this column at row `row`, column `column`.
    pub open spec fn error_at(&self, row: int, column: int) -> PostgresError {
        match self.fault() {
            Some(ColumnFault::Unsupported) => PostgresError::UnsupportedColumnType {
                row: row as usize,
                column: column as usize,
                oid: self.oid,
            },
            _ => PostgresError::InvalidColumnData {
                row: row as usize,
                column: column as usize,
                oid: self.oid,
            },
        }
    }
}

/// Every column of the row can be decoded.
pub open spec fn row_decodes(cols: Seq<RawColumn>) -> bool {
    forall|j: int| 0 <= j < cols.len() ==> (#[trigger] cols[j]).fault() is None
}

/// Column `j` is the first column of the row that cannot be decoded.
pub open spec fn first_fault_at(cols: Seq<RawColumn>, j: int) -> bool {
    &&& 0 <= j < cols.len()
    &&& cols[j].fault() is Some
    &&& forall|k: int| 0 <= k < j ==> (#[trigger] cols[k]).fault() is None
}

/// `e` is the error of the first column of row `row` that cannot be decoded.
pub open spec fn row_error(cols: Seq<RawColumn>, row: int, e: PostgresError) -> bool {
    exists|j: int| first_fault_at(cols, j) && e == (#[trigger] cols[j]).error_at(row, j)
}

/// `vs` holds the decoded columns of the row, in order.
pub open spec fn row_values(vs: Seq<Value>, cols: Seq<RawColumn>) -> bool {
    &&& vs.len() == cols.len()
    &&& forall|j: int| 0 <= j < cols.len() ==> (#[trigger] cols[j]).decodes_to(vs[j])
}

/// `v` is a `Vector` of the row's decoded columns, in order.
pub open spec fn row_decodes_to(v: Value, cols: Seq<RawColumn>) -> bool {
    v matches Value::Vector(vs) && row_values(vs@, cols)
}

/// `v` is a `Vector` with one `Vector` of decoded columns for each row, in order.
pub open spec fn rows_decode_to(v: Value, rows: Seq<Vec<RawColumn>>) -> bool {
    &&& v matches Value::Vector(out)
    &&& out@.len() == rows.len()
    &&& forall|i: int| 0 <= i < rows.len() ==> row_decodes_to(#[trigger] out@[i], rows[i]@)
}

/// Decodes one column, found at row `row`, column `column` of a result.
pub fn decode_column(c: &RawColumn, row: usize, column: usize) -> (r: Result<Value, PostgresError>)
    ensures
        r is Ok <==> c.fault() is None,
        r matches Ok(v) ==> c.decodes_to(v),
        r matches Err(e) ==> e == c.error_at(row as int, column as int),
{
    let ty = ColumnType::from_oid(c.oid);
    if let ColumnType::Other(oid) = ty {
        return Err(PostgresError::UnsupportedColumnType { row, column, oid });
    }
    let invalid = PostgresError::InvalidColumnData { row, column, oid: c.oid };
    match &c.data {
        None => Ok(Value::Void),
        Some(d) => {
            let raw = d.as_slice();
            match ty {
                ColumnType::Bool => match bool_from_wire(raw) {
                    Some(b) => Ok(Value::Bool(b)),
                    None => Err(invalid),
                },
                ColumnType::Int2 => match int2_from_wire(raw) {
                    Some(x) => Ok(Value::Int(x as i32)),
                    None => Err(invalid),
                },
                ColumnType::Int4 => match int4_from_wire(raw) {
                    Some(x) => Ok(Value::Int(x)),
                    None => Err(invalid),
                },
                ColumnType::Int8 => match int8_from_wire(raw) {
                    Some(x) => Ok(Value::Int(#[verifier::truncate] (x as i32))),
                    None => Err(invalid),
                },
                ColumnType::Text => match text_from_wire(raw) {
                    Some(s) => Ok(Value::String(s)),
                    None => Err(invalid),
                },
                _ => match bytea_from_wire(raw) {
                    Some(b) => Ok(Value::Bytes(b)),
                    None => Err(invalid),
                },
            }
        },
    }
}

/// Decodes the columns of row `row` of a result, in order.
///
/// Fails with the error of the first column that cannot be decoded.
pub fn decode_row(cols: &Vec<RawColumn>, row: usize) -> (r: Result<Vec<Value>, PostgresError>)
    ensures
        r is Ok <==> row_decodes(cols@),
        r matches Ok(vs) ==> row_values(vs@, cols@),
        r matches Err(e) ==> row_error(cols@, row as int, e),
{
    let mut out: Vec<Value> = Vec::new();
    let mut j: usize = 0;
    while j < cols.len()
        invariant
            j <= cols.len(),
            row_values(out@, cols@.subrange(0, j as int)),
            forall|k: int| 0 <= k < j ==> (#[trigger] cols@[k]).fault() is None,
        decreases cols.len() - j,
    {
        match decode_column(&cols[j], row, j) {
            Ok(v) => {
                out.push(v);
            },
            Err(e) => {
                assert(first_fault_at(cols@, j as int));
                return Err(e);
            },
        }
        j += 1;
        assert forall|k: int| 0 <= k < j implies (#[trigger] cols@.subrange(0, j as int)[k]).decodes_to(out@[k]) by {
            if k < j - 1 {
                assert(cols@.subrange(0, j - 1)[k] == cols@.subrange(0, j as int)[k]);
            }
        }
    }
    assert(cols@.subrange(0, j as int) == cols@);
    Ok(out)
}

/// Decodes a result: a `Vector` with one `Vector` of column values for each
/// row, rows and columns in the order the server sent them.
///
/// Fails, returning no row at all, with the error of the first column (rows
/// first, then columns) that cannot be decoded.
pub fn decode_rows(rows: &Vec<Vec<RawColumn>>) -> (r: Result<Value, PostgresError>)
    ensures
        r is Ok <==> forall|i: int| 0 <= i < rows@.len() ==> row_decodes(#[trigger] rows@[i]@),
        r matches Ok(v) ==> rows_decode_to(v, rows@),
        r matches Err(e) ==> exists|i: int|
            0 <= i < rows@.len() && !row_decodes(rows@[i]@) && (forall|k: int|
                0 <= k < i ==> row_decodes(#[trigger] rows@[k]@)) && row_error(
                #[trigger] rows@[i]@,
                i,
                e,
            ),
        rows@.len() == 0 ==> (r matches Ok(Value::Vector(out)) && out@.len() == 0),
        rows@.len() == 1 && row_decodes(rows@[0]@) ==> (r matches Ok(Value::Vector(out))
            && out@.len() == 1 && row_decodes_to(out@[0], rows@[0]@)),
        (exists|i: int, j: int|
            0 <= i < rows@.len() && 0 <= j < rows@[i]@.len() && !column_type_of(
                (#[trigger] rows@[i]@[j]).oid,
            ).is_supported()) ==> r is Err,
{
    let mut out: Vec<Value> = Vec::new();
    let mut i: usize = 0;
    while i < rows.len()
        invariant
            i <= rows.len(),
            out@.len() == i,
            forall|k: int| 0 <= k < i ==> row_decodes(#[trigger] rows@[k]@),
            forall|k: int| 0 <= k < i ==> row_decodes_to(#[trigger] out@[k], rows@[k]@),
        decreases rows.len() - i,
    {
        match decode_row(&rows[i], i) {
            Ok(vs) => {
                out.push(Value::Vector(vs));
            },
            Err(e) => {
                assert(row_error(rows@[i as int]@, i as int, e));
                return Err(e);
            },
        }
        i += 1;
    }
    Ok(Value::Vector(out))
}

} // verus!
