use vstd::prelude::*;
use crate::bridge::{
    script_outcome, settle, spec_settle, FailurePolicy, HostCallError, Settlement,
};
use crate::codec::{
    lemma_to_script_entries, lemma_to_script_seq, number_to_script, spec_to_script,
    spec_to_script_entries, spec_to_script_seq,
};
use crate::number::float_bits_of_large;
use crate::value::{
    host_entry_models, host_models, lemma_host_entry_models, lemma_host_models,
    lemma_script_entry_models, lemma_script_models, script_entry_models, script_models,
    HostModel, HostNumber, HostValue, ScriptModel, ScriptValue,
};

verus! {

/// The script number for a host number: an integer where the host number is
/// an integer that fits `i64`, otherwise a float.
pub fn map_number(n: &HostNumber) -> (r: ScriptValue)
    ensures
        r@ == number_to_script(*n),
{
    match n {
        HostNumber::PosInt(u) => {
            if *u <= 0x7FFF_FFFF_FFFF_FFFF {
                ScriptValue::Integer(*u as i64)
            } else {
                ScriptValue::Float(float_bits_of_large(*u))
            }
        },
        HostNumber::NegInt(i) => ScriptValue::Integer(*i),
        HostNumber::Float(bits) => ScriptValue::Float(*bits),
    }
}

/// Converts each host value of `items`, in order.
pub fn map_items(items: &Vec<HostValue>) -> (r: Vec<ScriptValue>)
    ensures
        script_models(r@) == spec_to_script_seq(host_models(items@)),
        r@.len() == items@.len(),
    decreases items,
{
    let mut out: Vec<ScriptValue> = Vec::new();
    let mut i: usize = 0;
    while i < items.len()
        invariant
            i <= items.len(),
            out@.len() == i,
            forall|j: int| 0 <= j < i ==> (#[trigger] out@[j])@ == spec_to_script(items@[j]@),
        decreases items.len() - i,
    {
        proof {
            vstd::std_specs::vec::axiom_vec_index_decreases(*items, i as int);
        }
        let item = map_to_rune_value(&items[i]);
        out.push(item);
        i += 1;
    }
    proof {
        lemma_script_models(out@);
        lemma_host_models(items@);
        lemma_to_script_seq(host_models(items@));
        assert(script_models(out@) =~= spec_to_script_seq(host_models(items@)));
    }
    out
}

/// Converts the value of each entry of a host object, keys and order kept.
pub fn map_entries(entries: &Vec<(String, HostValue)>) -> (r: Vec<(String, ScriptValue)>)
    ensures
        script_entry_models(r@) == spec_to_script_entries(host_entry_models(entries@)),
        r@.len() == entries@.len(),
    decreases entries,
{
    let mut out: Vec<(String, ScriptValue)> = Vec::new();
    let mut i: usize = 0;
    while i < entries.len()
        invariant
            i <= entries.len(),
            out@.len() == i,
            forall|j: int|
                0 <= j < i ==> (#[trigger] out@[j]).1@ == spec_to_script(entries@[j].1@)
                    && out@[j].0@ == entries@[j].0@,
        decreases entries.len() - i,
    {
        proof {
            vstd::std_specs::vec::axiom_vec_index_decreases(*entries, i as int);
        }
        let entry = &entries[i];
        let value = map_to_rune_value(&entry.1);
        out.push((entry.0.clone(), value));
        i += 1;
    }
    proof {
        lemma_script_entry_models(out@);
        lemma_host_entry_models(entries@);
        lemma_to_script_entries(host_entry_models(entries@));
        assert(script_entry_models(out@) =~= spec_to_script_entries(host_entry_models(entries@)));
    }
    out
}

/// Converts a host value into the script value that stands for it.
///
/// Null becomes the unit value; booleans and strings are kept; a number
/// becomes an integer where it is an integer that fits `i64` and a float
/// otherwise; arrays and objects are converted element by element.
pub fn map_to_rune_value(value: &HostValue) -> (r: ScriptValue)
    ensures
        r@ == spec_to_script(value@),
    decreases value,
{
    match value {
        HostValue::Null => ScriptValue::Unit,
        HostValue::Bool(b) => ScriptValue::Bool(*b),
        HostValue::Number(n) => map_number(n),
        HostValue::String(s) => ScriptValue::String(s.clone()),
        HostValue::Array(a) => ScriptValue::Vec(map_items(a)),
        HostValue::Object(o) => ScriptValue::Object(map_entries(o)),
    }
}

/// The positional arguments that a host value stands for: the converted
/// elements of an array, or the one converted value of anything else.
pub open spec fn spec_params(h: HostModel) -> Seq<ScriptModel> {
    match h {
        HostModel::Array(items) => spec_to_script_seq(items),
        _ => seq![spec_to_script(h)],
    }
}

/// Normalizes call parameters to a positional argument list: an array gives
/// its converted elements, any other value a list of that one converted value.
pub fn map_params_to_vec(value: &HostValue) -> (r: Vec<ScriptValue>)
    ensures
        script_models(r@) == spec_params(value@),
{
    match value {
        HostValue::Array(a) => map_items(a),
        _ => {
            let single = map_to_rune_value(value);
            let mut out: Vec<ScriptValue> = Vec::new();
            out.push(single);
            proof {
                lemma_script_models(out@);
                assert(script_models(out@) =~= seq![spec_to_script(value@)]);
            }
            out
        },
    }
}

/// Settles a host call whose failure the script may ignore: the converted
/// value on success, the unit value on rejection.
pub fn execute_promise(settlement: &Settlement) -> (r: Result<ScriptValue, HostCallError>)
    ensures
        script_outcome(r) == spec_settle(FailurePolicy::Degrade, settlement@),
        r is Ok,
{
    settle(FailurePolicy::Degrade, settlement)
}

} // verus!
