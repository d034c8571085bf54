//! The binding rules that map a statement's JSON parameters to SQL values.

use vstd::prelude::*;
use crate::protocol::ParamValue;

verus! {

/// The SQL value a parameter is bound as.
#[derive(Debug, Clone, PartialEq, Eq)]
pub enum BindValue {
    /// SQL NULL.
    Null,
    /// SQL INTEGER.
    Integer(i64),
    /// SQL REAL, carried as its IEEE-754 bit pattern.
    Real(u64),
    /// SQL TEXT.
    Text(String),
}

/// The binding rule: `null` binds NULL; booleans bind as the integers 1 and
/// 0; integers fitting signed 64 bits bind INTEGER and unsigned values
/// beyond that range bind NULL; floating-point numbers bind REAL; strings
/// bind TEXT; arrays and objects bind their compact JSON serialization as
/// TEXT.
pub open spec fn spec_bind_param(p: ParamValue) -> BindValue {
    match p {
        ParamValue::Null => BindValue::Null,
        ParamValue::Bool(b) => BindValue::Integer(if b { 1 } else { 0 }),
        ParamValue::Int(i) => BindValue::Integer(i),
        ParamValue::UInt(u) => if u <= i64::MAX as u64 {
            BindValue::Integer(u as i64)
        } else {
            BindValue::Null
        },
        ParamValue::Real(bits) => BindValue::Real(bits),
        ParamValue::Text(s) => BindValue::Text(s),
        ParamValue::Json(s) => BindValue::Text(s),
    }
}

/// Maps one parameter to the SQL value it is bound as.
pub fn bind_param(p: &ParamValue) -> (r: BindValue)
    ensures
        r == spec_bind_param(*p),
{
    match p {
        ParamValue::Null => BindValue::Null,
        ParamValue::Bool(b) => BindValue::Integer(if *b { 1 } else { 0 }),
        ParamValue::Int(i) => BindValue::Integer(*i),
        ParamValue::UInt(u) => {
            if *u <= i64::MAX as u64 {
                BindValue::Integer(*u as i64)
            } else {
                BindValue::Null
            }
        },
        ParamValue::Real(bits) => BindValue::Real(*bits),
        ParamValue::Text(s) => BindValue::Text(s.clone()),
        ParamValue::Json(s) => BindValue::Text(s.clone()),
    }
}

/// Binds every parameter of a statement, in order.
pub fn bind_params(params: &Vec<ParamValue>) -> (r: Vec<BindValue>)
    ensures
        r@.len() == params@.len(),
        forall|i: int| 0 <= i < params@.len() ==> r@[i] == spec_bind_param(params@[i]),
{
    let mut out: Vec<BindValue> = Vec::new();
    let mut i: usize = 0;
    while i < params.len()
        invariant
            0 <= i <= params@.len(),
            out@.len() == i,
            forall|k: int| 0 <= k < i ==> out@[k] == spec_bind_param(params@[k]),
        decreases params@.len() - i,
    {
        out.push(bind_param(&params[i]));
        i += 1;
    }
    out
}

} // verus!
