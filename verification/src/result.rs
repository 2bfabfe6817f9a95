use vstd::prelude::*;
use vstd::utf8::{decode_utf8, valid_utf8};
use crate::diagnostics::{diagnostic_models, DiagnosticModel, WasmDiagnostic};
use crate::text::{spec_trim_end, trim_end, utf8_text};

verus! {

/// The response to one request.
#[derive(Debug, PartialEq, Eq)]
pub struct WasmCompileResult {
    /// The error that ended the request, if one did.
    pub error: Option<String>,
    /// The readable diagnostics text, if it was asked for and is UTF-8.
    pub diagnostics_output: Option<String>,
    /// The structured diagnostics.
    pub diagnostics: Vec<WasmDiagnostic>,
    /// The printed form of the value that the entry function returned.
    pub result: Option<String>,
    /// What the script printed, without trailing white space.
    pub output: Option<String>,
    /// The instruction dump, if it was asked for.
    pub instructions: Option<String>,
}

/// The mathematical content of a [`WasmCompileResult`].
pub struct ResultModel {
    pub error: Option<Seq<char>>,
    pub diagnostics_output: Option<Seq<char>>,
    pub diagnostics: Seq<DiagnosticModel>,
    pub result: Option<Seq<char>>,
    pub output: Option<Seq<char>>,
    pub instructions: Option<Seq<char>>,
}

/// The content of a text that may be missing.
pub open spec fn text_model(text: Option<String>) -> Option<Seq<char>> {
    match text {
        Some(s) => Some(s@),
        None => None,
    }
}

/// A text that may be missing, without its trailing white space.
pub open spec fn spec_trimmed(text: Option<Seq<char>>) -> Option<Seq<char>> {
    match text {
        Some(s) => Some(spec_trim_end(s)),
        None => None,
    }
}

/// The text that emitted bytes hold: none unless they are UTF-8, and then
/// what they decode to, without trailing white space.
pub open spec fn spec_diagnostics_output(bytes: Seq<u8>) -> Option<Seq<char>> {
    if valid_utf8(bytes) {
        Some(spec_trim_end(decode_utf8(bytes)))
    } else {
        None
    }
}

impl View for WasmCompileResult {
    type V = ResultModel;

    open spec fn view(&self) -> ResultModel {
        ResultModel {
            error: text_model(self.error),
            diagnostics_output: text_model(self.diagnostics_output),
            diagnostics: diagnostic_models(self.diagnostics@),
            result: text_model(self.result),
            output: text_model(self.output),
            instructions: text_model(self.instructions),
        }
    }
}

/// A text that may be missing, without its trailing white space.
pub fn trimmed(text: Option<String>) -> (r: Option<String>)
    ensures
        text_model(r) == spec_trimmed(text_model(text)),
{
    match text {
        Some(s) => Some(trim_end(s.as_str())),
        None => None,
    }
}

/// The text that emitted bytes hold, without trailing white space; none if
/// the bytes are not UTF-8.
pub fn diagnostics_output(emitted: Vec<u8>) -> (r: Option<String>)
    ensures
        text_model(r) == spec_diagnostics_output(emitted@),
{
    match utf8_text(emitted) {
        Some(text) => Some(trim_end(text.as_str())),
        None => None,
    }
}

impl WasmCompileResult {
    /// The response to a request that ended well: no error, the printed
    /// form of the returned value, and what the script printed.
    pub fn output(
        captured: Option<String>,
        output: String,
        diagnostics_output: Option<String>,
        diagnostics: Vec<WasmDiagnostic>,
        instructions: Option<String>,
    ) -> (r: Self)
        ensures
            r@ == (ResultModel {
                error: None,
                diagnostics_output: text_model(diagnostics_output),
                diagnostics: diagnostic_models(diagnostics@),
                result: Some(output@),
                output: spec_trimmed(text_model(captured)),
                instructions: text_model(instructions),
            }),
    {
        WasmCompileResult {
            error: None,
            diagnostics_output,
            diagnostics,
            result: Some(output),
            output: trimmed(captured),
            instructions,
        }
    }

    /// The response to a request that an error ended: the error, no result,
    /// and what the script had printed until then.
    pub fn from_error(
        captured: Option<String>,
        error: String,
        diagnostics_output: Option<String>,
        diagnostics: Vec<WasmDiagnostic>,
        instructions: Option<String>,
    ) -> (r: Self)
        ensures
            r@ == (ResultModel {
                error: Some(error@),
                diagnostics_output: text_model(diagnostics_output),
                diagnostics: diagnostic_models(diagnostics@),
                result: None,
                output: spec_trimmed(text_model(captured)),
                instructions: text_model(instructions),
            }),
    {
        WasmCompileResult {
            error: Some(error),
            diagnostics_output,
            diagnostics,
            result: None,
            output: trimmed(captured),
            instructions,
        }
    }
}

} // verus!
