use vstd::prelude::*;
use vstd::string::StringExecFns;
use crate::codec::spec_to_script;
use crate::helpers::map_to_rune_value;
use crate::value::{HostModel, HostValue, ScriptModel, ScriptValue};

verus! {

/// How one asynchronous host operation ended: with a value, already decoded
/// from its wire form, or with a rejection, described by its text.
#[derive(Debug, PartialEq, Eq)]
pub enum Settlement {
    Resolved(HostValue),
    Rejected(String),
}

/// The mathematical content of a [`Settlement`].
pub enum SettlementModel {
    Resolved(HostModel),
    Rejected(Seq<char>),
}

impl View for Settlement {
    type V = SettlementModel;

    open spec fn view(&self) -> SettlementModel {
        match self {
            Settlement::Resolved(h) => SettlementModel::Resolved(h@),
            Settlement::Rejected(reason) => SettlementModel::Rejected(reason@),
        }
    }
}

/// What a rejected host operation means to the calling script.
#[derive(Clone, Copy, Debug, PartialEq, Eq, Structural)]
pub enum FailurePolicy {
    /// The rejection aborts the script with an error.
    Fatal,
    /// The rejection is swallowed and the call returns the unit value.
    Degrade,
}

/// The failure of a host operation, as the script runtime reports it.
#[derive(Debug, PartialEq, Eq)]
pub struct HostCallError {
    pub message: String,
}

/// The text of the error that a rejection with the given reason raises.
pub open spec fn rejection_message(reason: Seq<char>) -> Seq<char> {
    "cyb-runtime error: "@ + reason
}

/// What a settled host operation hands to the script, under a policy: the
/// converted value on success; on rejection the error text under `Fatal`
/// and the unit value under `Degrade`.
pub open spec fn spec_settle(policy: FailurePolicy, settlement: SettlementModel) -> Result<
    ScriptModel,
    Seq<char>,
> {
    match settlement {
        SettlementModel::Resolved(h) => Ok(spec_to_script(h)),
        SettlementModel::Rejected(reason) => match policy {
            FailurePolicy::Fatal => Err(rejection_message(reason)),
            FailurePolicy::Degrade => Ok(ScriptModel::Unit),
        },
    }
}

/// The mathematical content of what a settled call hands to the script.
pub open spec fn script_outcome(r: Result<ScriptValue, HostCallError>) -> Result<
    ScriptModel,
    Seq<char>,
> {
    match r {
        Ok(v) => Ok(v@),
        Err(e) => Err(e.message@),
    }
}

/// Turns the settlement of a host operation into the result of the script's
/// call, under the failure policy of the capability that made the call.
pub fn settle(policy: FailurePolicy, settlement: &Settlement) -> (r: Result<
    ScriptValue,
    HostCallError,
>)
    ensures
        script_outcome(r) == spec_settle(policy, settlement@),
{
    match settlement {
        Settlement::Resolved(h) => Ok(map_to_rune_value(h)),
        Settlement::Rejected(reason) => match policy {
            FailurePolicy::Fatal => {
                let mut message = String::from_str("cyb-runtime error: ");
                message.append(reason.as_str());
                Err(HostCallError { message })
            },
            FailurePolicy::Degrade => Ok(ScriptValue::Unit),
        },
    }
}

} // verus!
