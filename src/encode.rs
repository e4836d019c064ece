//! The parameter encoder: a `Vector` of dynamic values becomes the list of
//! parameters bound to one statement.
use vstd::prelude::*;

use crate::value::{Param, PostgresError, Value};

verus! {

/// Whether a value has an encoding rule as a statement parameter.
pub open spec fn encodable(v: Value) -> bool {
    match v {
        Value::Bytes(_) | Value::Vector(_) => false,
        _ => true,
    }
}

/// Whether `p` is the parameter that `v` is bound as.
pub open spec fn encodes_as(v: Value, p: Param) -> bool {
    match v {
        Value::Bool(b) => p == Param::Bool(b),
        Value::Number(bits) => p == Param::Float8(bits),
        Value::Int(i) => p == Param::Int4(i),
        Value::String(s) => p matches Param::Text(t) && t@ == s@,
        Value::Void => p is Null,
        _ => false,
    }
}

/// `ps` holds the parameters of `vs`, one for one and in order.
pub open spec fn params_of(vs: Seq<Value>, ps: Seq<Param>) -> bool {
    &&& ps.len() == vs.len()
    &&& forall|i: int| 0 <= i < vs.len() ==> encodes_as(#[trigger] vs[i], ps[i])
}

/// Index `i` holds the first value of `vs` with no encoding rule.
pub open spec fn first_unencodable_at(vs: Seq<Value>, i: int) -> bool {
    &&& 0 <= i < vs.len()
    &&& !encodable(vs[i])
    &&& forall|k: int| 0 <= k < i ==> encodable(#[trigger] vs[k])
}

/// Every value of `vs` has an encoding rule.
pub open spec fn all_encodable(vs: Seq<Value>) -> bool {
    forall|i: int| 0 <= i < vs.len() ==> encodable(#[trigger] vs[i])
}

/// `e` reports the first value of `vs` with no encoding rule.
pub open spec fn unsupported_parameter_error(vs: Seq<Value>, e: PostgresError) -> bool {
    e matches PostgresError::UnsupportedParameter { index } && first_unencodable_at(vs, index as int)
}

/// The parameter one value is bound as: `Bool` as `BOOL`, `Number` as
/// `FLOAT8`, `Int` as `INT4`, `String` as `TEXT` (a copy) and `Void` as a NULL
/// of any type. `Bytes` and `Vector` have no rule and give `None`.
pub fn encode_parameter(v: &Value) -> (r: Option<Param>)
    ensures
        r is Some <==> encodable(*v),
        r matches Some(p) ==> encodes_as(*v, p),
{
    match v {
        Value::Bool(b) => Some(Param::Bool(*b)),
        Value::Number(bits) => Some(Param::Float8(*bits)),
        Value::Int(i) => Some(Param::Int4(*i)),
        Value::String(s) => Some(Param::Text(s.clone())),
        Value::Void => Some(Param::Null),
        Value::Bytes(_) | Value::Vector(_) => None,
    }
}

/// The parameters of one statement, from a `Vector` of values.
///
/// Anything but a `Vector` fails with `TypeMismatch`; a `Vector` that holds a
/// value with no encoding rule fails with `UnsupportedParameter` at the first
/// such value.
pub fn encode_parameters(params: &Value) -> (r: Result<Vec<Param>, PostgresError>)
    ensures
        !(params is Vector) ==> r == Err::<Vec<Param>, PostgresError>(PostgresError::TypeMismatch),
        params matches Value::Vector(vs) ==> (r is Ok <==> all_encodable(vs@)),
        r matches Ok(ps) ==> (params matches Value::Vector(vs) && params_of(vs@, ps@)),
        params matches Value::Vector(vs) ==> (r matches Err(e) ==> unsupported_parameter_error(vs@, e)),
{
    match params {
        Value::Vector(vs) => {
            let mut out: Vec<Param> = Vec::new();
            let mut i: usize = 0;
            while i < vs.len()
                invariant
                    *params == Value::Vector(*vs),
                    i <= vs.len(),
                    out@.len() == i,
                    forall|k: int| 0 <= k < i ==> encodable(#[trigger] vs@[k]),
                    forall|k: int| 0 <= k < i ==> encodes_as(#[trigger] vs@[k], out@[k]),
                decreases vs.len() - i,
            {
                match encode_parameter(&vs[i]) {
                    Some(p) => out.push(p),
                    None => {
                        assert(first_unencodable_at(vs@, i as int));
                        assert(unsupported_parameter_error(vs@, PostgresError::UnsupportedParameter { index: i }));
                        return Err(PostgresError::UnsupportedParameter { index: i });
                    },
                }
                i += 1;
            }
            Ok(out)
        },
        _ => Err(PostgresError::TypeMismatch),
    }
}

} // verus!
