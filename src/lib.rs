//! Adapter between dynamically typed values and PostgreSQL parameters and rows.
//!
//! The library holds the logic of the adapter: how a list of dynamic values
//! becomes a list of statement parameters, and how the columns of result rows,
//! each with the type the server reported, become dynamic values again.
//! The network client itself is driven from outside the library.
use vstd::prelude::*;

pub mod decode;
pub mod encode;
pub mod laws;
pub mod value;
pub mod wire;

pub use value::{ColumnType, Param, PostgresError, Value};
pub use decode::{decode_column, decode_row, decode_rows, RawColumn};
pub use encode::{encode_parameter, encode_parameters};
