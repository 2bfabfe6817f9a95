use vstd::prelude::*;
use crate::setup::{SetupError, SetupFault};
use crate::value::HostValue;

verus! {

/// The step budget of a request that names none.
pub const DEFAULT_BUDGET: usize = 1_000_000;

/// How a request wants its script compiled and run.
#[derive(Debug, PartialEq, Eq)]
pub struct Config {
    /// The step budget; the default where there is none.
    pub budget: Option<usize>,
    /// Compiler options, applied in order.
    pub options: Vec<String>,
    /// Whether the experimental module is installed.
    pub experimental: bool,
    /// Whether the response holds an instruction dump.
    pub instructions: bool,
    /// Whether the readable diagnostics text is left out.
    pub suppress_text_warnings: bool,
}

/// One request: what to compile against, and what to run.
#[derive(Debug, PartialEq, Eq)]
pub struct CompilerParams {
    /// Whether mutating capabilities are withheld from the script.
    pub read_only: bool,
    /// The entry function.
    pub func_name: String,
    /// The arguments of the entry function: an array, or one value.
    pub func_params: HostValue,
    /// Whether the script is run after it compiled.
    pub execute: bool,
    pub config: Config,
}

/// The number of steps that a budget setting allows: the setting itself, or
/// the default where there is none. Zero steps is no budget.
pub open spec fn spec_budget(budget: Option<usize>) -> Result<usize, SetupFault> {
    match budget {
        None => Ok(DEFAULT_BUDGET),
        Some(steps) => if steps == 0 {
            Err(SetupFault::ZeroBudget)
        } else {
            Ok(steps)
        },
    }
}

impl Default for Config {
    fn default() -> (r: Self)
        ensures
            r.budget is None,
            r.options@.len() == 0,
            !r.experimental,
            !r.instructions,
            !r.suppress_text_warnings,
    {
        Config {
            budget: None,
            options: Vec::new(),
            experimental: false,
            instructions: false,
            suppress_text_warnings: false,
        }
    }
}

impl Config {
    /// The number of steps that the script may take.
    pub fn effective_budget(&self) -> (r: Result<usize, SetupError>)
        ensures
            match r {
                Ok(steps) => spec_budget(self.budget) == Ok::<usize, SetupFault>(steps) && steps
                    > 0,
                Err(e) => spec_budget(self.budget) == Err::<usize, SetupFault>(e@),
            },
    {
        match self.budget {
            None => Ok(DEFAULT_BUDGET),
            Some(steps) => {
                if steps == 0 {
                    Err(SetupError::ZeroBudget)
                } else {
                    Ok(steps)
                }
            },
        }
    }
}

} // verus!
