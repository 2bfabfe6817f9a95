use vstd::prelude::*;
use vstd::string::StringExecFns;

verus! {

/// A fault in the configuration of a request, found before anything runs.
#[derive(Debug, PartialEq, Eq)]
pub enum SetupError {
    /// The host parameters lack a field that they must hold.
    MissingParameter { name: String },
    /// Two capabilities were registered under one name.
    NameCollision { name: String },
    /// The step budget is zero.
    ZeroBudget,
    /// The compiler refused an option; `index` is its place in the list.
    InvalidOption { index: usize, message: String },
}

/// The mathematical content of a [`SetupError`].
pub enum SetupFault {
    MissingParameter { name: Seq<char> },
    NameCollision { name: Seq<char> },
    ZeroBudget,
    InvalidOption { index: nat, message: Seq<char> },
}

impl View for SetupError {
    type V = SetupFault;

    open spec fn view(&self) -> SetupFault {
        match self {
            SetupError::MissingParameter { name } => SetupFault::MissingParameter { name: name@ },
            SetupError::NameCollision { name } => SetupFault::NameCollision { name: name@ },
            SetupError::ZeroBudget => SetupFault::ZeroBudget,
            SetupError::InvalidOption { index, message } => SetupFault::InvalidOption {
                index: *index as nat,
                message: message@,
            },
        }
    }
}

/// The text that reports a setup fault.
pub open spec fn spec_message(fault: SetupFault) -> Seq<char> {
    match fault {
        SetupFault::MissingParameter { name } => "missing host parameter: "@ + name,
        SetupFault::NameCollision { name } => "capability registered twice: "@ + name,
        SetupFault::ZeroBudget => "the step budget must be positive"@,
        SetupFault::InvalidOption { index, message } => message,
    }
}

impl SetupError {
    /// The text that reports the error. For a refused compiler option it is
    /// the compiler's own message.
    pub fn message(&self) -> (r: String)
        ensures
            r@ == spec_message(self@),
    {
        match self {
            SetupError::MissingParameter { name } => {
                let mut text = String::from_str("missing host parameter: ");
                text.append(name.as_str());
                text
            },
            SetupError::NameCollision { name } => {
                let mut text = String::from_str("capability registered twice: ");
                text.append(name.as_str());
                text
            },
            SetupError::ZeroBudget => String::from_str("the step budget must be positive"),
            SetupError::InvalidOption { index: _, message } => message.clone(),
        }
    }
}

} // verus!
