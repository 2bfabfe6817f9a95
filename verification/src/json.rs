use vstd::prelude::*;
use crate::bridge::{
    script_outcome, settle, spec_settle, FailurePolicy, HostCallError, Settlement,
};
use crate::codec::{
    host_outcome, lemma_to_host_entries_err, lemma_to_host_entries_ok, lemma_to_host_seq_err,
    lemma_to_host_seq_ok, spec_to_host, spec_to_host_entries, spec_to_host_seq, spec_to_script,
    spec_to_script_seq, ConversionError, ConversionFault,
};
use crate::helpers::{map_items, map_to_rune_value};
use crate::number::is_finite;
use crate::value::{
    host_entry_models, host_models, lemma_host_entry_models, lemma_host_models,
    lemma_script_entry_models, lemma_script_models, script_entry_models, script_models,
    HostModel, HostNumber, HostValue, ScriptModel, ScriptValue,
};

verus! {

/// Conversion of a script-side value to the host value that stands for it.
pub trait ToJson {
    /// What `to_json` returns.
    spec fn json_spec(&self) -> Result<HostModel, ConversionFault>;

    /// The host value for `self`, or why it has none.
    fn to_json(&self) -> (r: Result<HostValue, ConversionError>)
        ensures
            host_outcome(r) == self.json_spec(),
    ;
}

/// Converts each element of a script vector, in order; stops at the first
/// element that does not convert and returns its error.
pub fn convert_vec(vec: &Vec<ScriptValue>) -> (r: Result<Vec<HostValue>, ConversionError>)
    ensures
        match r {
            Ok(converted) => spec_to_host_seq(script_models(vec@)) == Ok::<
                Seq<HostModel>,
                ConversionFault,
            >(host_models(converted@)),
            Err(e) => spec_to_host_seq(script_models(vec@)) == Err::<
                Seq<HostModel>,
                ConversionFault,
            >(e@),
        },
    decreases vec,
{
    let mut out: Vec<HostValue> = Vec::new();
    let mut i: usize = 0;
    proof {
        lemma_script_models(vec@);
    }
    while i < vec.len()
        invariant
            i <= vec.len(),
            out@.len() == i,
            script_models(vec@).len() == vec@.len(),
            forall|j: int| 0 <= j < vec@.len() ==> #[trigger] script_models(vec@)[j] == vec@[j]@,
            forall|j: int|
                0 <= j < i ==> spec_to_host(#[trigger] script_models(vec@)[j]) == Ok::<
                    HostModel,
                    ConversionFault,
                >(out@[j]@),
        decreases vec.len() - i,
    {
        proof {
            vstd::std_specs::vec::axiom_vec_index_decreases(*vec, i as int);
        }
        match value_to_json(&vec[i]) {
            Ok(h) => {
                out.push(h);
            },
            Err(e) => {
                proof {
                    lemma_to_host_seq_err(script_models(vec@), i as int, e@);
                }
                return Err(e);
            },
        }
        i += 1;
    }
    proof {
        lemma_host_models(out@);
        lemma_to_host_seq_ok(script_models(vec@), host_models(out@));
    }
    Ok(out)
}

/// Converts the value of each entry of a script object, keys and order kept;
/// stops at the first value that does not convert and returns its error.
pub fn convert_object(object: &Vec<(String, ScriptValue)>) -> (r: Result<
    Vec<(String, HostValue)>,
    ConversionError,
>)
    ensures
        match r {
            Ok(converted) => spec_to_host_entries(script_entry_models(object@)) == Ok::<
                Seq<(Seq<char>, HostModel)>,
                ConversionFault,
            >(host_entry_models(converted@)),
            Err(e) => spec_to_host_entries(script_entry_models(object@)) == Err::<
                Seq<(Seq<char>, HostModel)>,
                ConversionFault,
            >(e@),
        },
    decreases object,
{
    let mut out: Vec<(String, HostValue)> = Vec::new();
    let mut i: usize = 0;
    proof {
        lemma_script_entry_models(object@);
    }
    while i < object.len()
        invariant
            i <= object.len(),
            out@.len() == i,
            script_entry_models(object@).len() == object@.len(),
            forall|j: int|
                0 <= j < object@.len() ==> #[trigger] script_entry_models(object@)[j] == (
                    object@[j].0@,
                    object@[j].1@,
                ),
            forall|j: int|
                0 <= j < i ==> spec_to_host((#[trigger] script_entry_models(object@)[j]).1) == Ok::<
                    HostModel,
                    ConversionFault,
                >(out@[j].1@) && out@[j].0@ == object@[j].0@,
        decreases object.len() - i,
    {
        proof {
            vstd::std_specs::vec::axiom_vec_index_decreases(*object, i as int);
        }
        let entry = &object[i];
        match value_to_json(&entry.1) {
            Ok(h) => {
                out.push((entry.0.clone(), h));
            },
            Err(e) => {
                proof {
                    lemma_to_host_entries_err(script_entry_models(object@), i as int, e@);
                }
                return Err(e);
            },
        }
        i += 1;
    }
    proof {
        lemma_host_entry_models(out@);
        lemma_to_host_entries_ok(script_entry_models(object@), host_entry_models(out@));
    }
    Ok(out)
}

/// Converts a script value into the host value that stands for it.
///
/// The unit value and the empty tuple become null; a float that is not a
/// finite number becomes null as well, since the host form has no such
/// number. A tuple with fields and a value of any other runtime type do not
/// convert. A vector or an object converts only if all of it does.
pub fn value_to_json(value: &ScriptValue) -> (r: Result<HostValue, ConversionError>)
    ensures
        host_outcome(r) == spec_to_host(value@),
    decreases value,
{
    match value {
        ScriptValue::Unit => Ok(HostValue::Null),
        ScriptValue::Bool(b) => Ok(HostValue::Bool(*b)),
        ScriptValue::Float(bits) => {
            if is_finite(*bits) {
                Ok(HostValue::Number(HostNumber::Float(*bits)))
            } else {
                Ok(HostValue::Null)
            }
        },
        ScriptValue::Integer(i) => {
            if *i < 0 {
                Ok(HostValue::Number(HostNumber::NegInt(*i)))
            } else {
                Ok(HostValue::Number(HostNumber::PosInt(*i as u64)))
            }
        },
        ScriptValue::Tuple(t) => {
            proof {
                lemma_script_models(t@);
            }
            if t.len() == 0 {
                Ok(HostValue::Null)
            } else {
                Err(ConversionError::UnsupportedShape { arity: t.len() })
            }
        },
        ScriptValue::Object(o) => match convert_object(o) {
            Ok(converted) => Ok(HostValue::Object(converted)),
            Err(e) => Err(e),
        },
        ScriptValue::String(s) => Ok(HostValue::String(s.clone())),
        ScriptValue::Vec(v) => match convert_vec(v) {
            Ok(converted) => Ok(HostValue::Array(converted)),
            Err(e) => Err(e),
        },
        ScriptValue::Opaque(type_tag) => Err(
            ConversionError::UnhandledType { type_tag: type_tag.clone() },
        ),
    }
}

impl ToJson for ScriptValue {
    open spec fn json_spec(&self) -> Result<HostModel, ConversionFault> {
        spec_to_host(self@)
    }

    fn to_json(&self) -> (r: Result<HostValue, ConversionError>) {
        value_to_json(self)
    }
}

/// Conversion of a host-side value to the script value that stands for it.
pub trait ToRune {
    /// What `to_rune` returns.
    spec fn rune_spec(&self) -> ScriptModel;

    /// The script value for `self`. Every host-side value has one.
    fn to_rune(&self) -> (r: Result<ScriptValue, ConversionError>)
        ensures
            r is Ok,
            r->Ok_0@ == self.rune_spec(),
    ;
}

impl ToRune for HostValue {
    open spec fn rune_spec(&self) -> ScriptModel {
        spec_to_script(self@)
    }

    fn to_rune(&self) -> (r: Result<ScriptValue, ConversionError>) {
        Ok(map_to_rune_value(self))
    }
}

impl ToRune for String {
    open spec fn rune_spec(&self) -> ScriptModel {
        ScriptModel::String(self@)
    }

    fn to_rune(&self) -> (r: Result<ScriptValue, ConversionError>) {
        Ok(ScriptValue::String(self.clone()))
    }
}

/// The script values of the elements of a host array, in order; any other
/// host value is refused.
pub fn to_vec(array: &HostValue) -> (r: Result<Vec<ScriptValue>, ConversionError>)
    ensures
        match r {
            Ok(values) => array@ is Array && script_models(values@) == spec_to_script_seq(
                array@->Array_0,
            ),
            Err(e) => !(array@ is Array) && e@ == ConversionFault::ExpectedArray,
        },
{
    match array {
        HostValue::Array(a) => Ok(map_items(a)),
        _ => Err(ConversionError::ExpectedArray),
    }
}

/// Settles a host call whose failure aborts the script: the converted value
/// on success, an error that carries the reason on rejection.
pub fn execute_promise(settlement: &Settlement) -> (r: Result<ScriptValue, HostCallError>)
    ensures
        script_outcome(r) == spec_settle(FailurePolicy::Fatal, settlement@),
{
    settle(FailurePolicy::Fatal, settlement)
}

/// The wire form of a script value handed to a host operation, or the
/// reason why the value has none.
pub fn rune_value_to_js(value: ScriptValue) -> (r: Result<HostValue, ConversionError>)
    ensures
        host_outcome(r) == spec_to_host(value@),
{
    value_to_json(&value)
}

} // verus!
