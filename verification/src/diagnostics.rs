use vstd::prelude::*;
use vstd::string::StringExecFns;
use vstd::utf8::encode_utf8;
use crate::position::{before, column_of, line_of, map_span, WasmPosition};

verus! {

/// A range of byte offsets in one source text.
#[derive(Clone, Copy, Debug, PartialEq, Eq, Structural)]
pub struct Span {
    pub start: usize,
    pub end: usize,
}

/// What the compiler reported, reduced to what the response is made from.
#[derive(Debug, PartialEq, Eq)]
pub enum RawDiagnostic {
    /// A syntax or semantic error at a span of a source.
    CompileError { source_id: usize, span: Span, message: String },
    /// A link error: a function that is called at each of `spans` and is
    /// defined nowhere; `hash` is the printed form of its hash.
    MissingFunction { source_id: usize, hash: String, spans: Vec<Span> },
    /// A warning at a span of a source.
    Warning { source_id: usize, span: Span, message: String },
    /// Anything else; it leaves no trace in the structured diagnostics.
    Other,
}

/// The mathematical content of a [`RawDiagnostic`].
pub enum RawModel {
    CompileError { source_id: nat, span: Span, message: Seq<char> },
    MissingFunction { source_id: nat, hash: Seq<char>, spans: Seq<Span> },
    Warning { source_id: nat, span: Span, message: Seq<char> },
    Other,
}

impl View for RawDiagnostic {
    type V = RawModel;

    open spec fn view(&self) -> RawModel {
        match self {
            RawDiagnostic::CompileError { source_id, span, message } => RawModel::CompileError {
                source_id: *source_id as nat,
                span: *span,
                message: message@,
            },
            RawDiagnostic::MissingFunction { source_id, hash, spans } => RawModel::MissingFunction {
                source_id: *source_id as nat,
                hash: hash@,
                spans: spans@,
            },
            RawDiagnostic::Warning { source_id, span, message } => RawModel::Warning {
                source_id: *source_id as nat,
                span: *span,
                message: message@,
            },
            RawDiagnostic::Other => RawModel::Other,
        }
    }
}

/// How serious a diagnostic is.
#[derive(Clone, Copy, Debug, PartialEq, Eq, Structural)]
pub enum WasmDiagnosticKind {
    Error,
    Warning,
}

/// One diagnostic of the response: a message at a range of positions.
#[derive(Debug, PartialEq, Eq)]
pub struct WasmDiagnostic {
    pub kind: WasmDiagnosticKind,
    pub start: WasmPosition,
    pub end: WasmPosition,
    pub message: String,
}

/// The mathematical content of a [`WasmDiagnostic`].
pub struct DiagnosticModel {
    pub kind: WasmDiagnosticKind,
    pub start: WasmPosition,
    pub end: WasmPosition,
    pub message: Seq<char>,
}

impl View for WasmDiagnostic {
    type V = DiagnosticModel;

    open spec fn view(&self) -> DiagnosticModel {
        DiagnosticModel {
            kind: self.kind,
            start: self.start,
            end: self.end,
            message: self.message@,
        }
    }
}

impl Clone for WasmDiagnostic {
    fn clone(&self) -> (r: Self)
        ensures
            r@ == self@,
    {
        WasmDiagnostic {
            kind: self.kind,
            start: self.start,
            end: self.end,
            message: self.message.clone(),
        }
    }
}

/// The contents of a list of diagnostics, in order.
pub open spec fn diagnostic_models(list: Seq<WasmDiagnostic>) -> Seq<DiagnosticModel> {
    Seq::new(list.len(), |i: int| list[i]@)
}

/// The contents of a list of raw diagnostics, in order.
pub open spec fn raw_models(list: Seq<RawDiagnostic>) -> Seq<RawModel> {
    Seq::new(list.len(), |i: int| list[i]@)
}

/// The contents of a list of source texts, in order.
pub open spec fn texts(sources: Seq<String>) -> Seq<Seq<char>> {
    Seq::new(sources.len(), |i: int| sources[i]@)
}

/// The position of a byte offset in a text: the line is the number of line
/// feeds before the offset, the character the number of characters that
/// begin between the last of them and the offset. Each is kept in 32 bits.
pub open spec fn spec_position(text: Seq<char>, offset: usize) -> WasmPosition {
    WasmPosition {
        line: line_of(before(encode_utf8(text), offset as int)) as u32,
        character: column_of(before(encode_utf8(text), offset as int)) as u32,
    }
}

/// The diagnostic for a message at a span of a text.
pub open spec fn spec_entry(
    kind: WasmDiagnosticKind,
    text: Seq<char>,
    span: Span,
    message: Seq<char>,
) -> DiagnosticModel {
    DiagnosticModel {
        kind,
        start: spec_position(text, span.start),
        end: spec_position(text, span.end),
        message,
    }
}

/// One error diagnostic with the same message for each span, in order.
pub open spec fn spec_span_entries(text: Seq<char>, spans: Seq<Span>, message: Seq<char>) -> Seq<
    DiagnosticModel,
> {
    Seq::new(spans.len(), |i: int| spec_entry(WasmDiagnosticKind::Error, text, spans[i], message))
}

/// The message of the diagnostic for a missing function.
pub open spec fn missing_function_message(hash: Seq<char>) -> Seq<char> {
    "missing function (hash: "@ + hash + ")"@
}

/// The diagnostics that one report of the compiler gives. A report on a
/// source that is not among `sources` gives none.
pub open spec fn diagnostics_of(raw: RawModel, sources: Seq<Seq<char>>) -> Seq<DiagnosticModel> {
    match raw {
        RawModel::CompileError { source_id, span, message } => if source_id < sources.len() {
            seq![spec_entry(WasmDiagnosticKind::Error, sources[source_id as int], span, message)]
        } else {
            Seq::empty()
        },
        RawModel::MissingFunction { source_id, hash, spans } => if source_id < sources.len() {
            spec_span_entries(sources[source_id as int], spans, missing_function_message(hash))
        } else {
            Seq::empty()
        },
        RawModel::Warning { source_id, span, message } => if source_id < sources.len() {
            seq![spec_entry(WasmDiagnosticKind::Warning, sources[source_id as int], span, message)]
        } else {
            Seq::empty()
        },
        RawModel::Other => Seq::empty(),
    }
}

/// The diagnostics that a run of reports gives: those of each, in order.
pub open spec fn spec_collect(raw: Seq<RawModel>, sources: Seq<Seq<char>>) -> Seq<DiagnosticModel>
    decreases raw.len(),
{
    if raw.len() == 0 {
        Seq::empty()
    } else {
        spec_collect(raw.drop_last(), sources) + diagnostics_of(raw.last(), sources)
    }
}

/// The diagnostic for a message at a span of a source text.
pub fn entry(kind: WasmDiagnosticKind, source: &str, span: Span, message: String) -> (r:
    WasmDiagnostic)
    ensures
        r@ == spec_entry(kind, source@, span, message@),
{
    let ends = map_span(source, span.start, span.end);
    WasmDiagnostic { kind, start: ends.0, end: ends.1, message }
}

/// Appends to `out` the diagnostics that one report of the compiler gives.
pub fn push_diagnostics(out: &mut Vec<WasmDiagnostic>, raw: &RawDiagnostic, sources: &Vec<String>)
    ensures
        diagnostic_models(final(out)@) == diagnostic_models(old(out)@) + diagnostics_of(
            raw@,
            texts(sources@),
        ),
{
    let ghost before_models = diagnostic_models(out@);
    match raw {
        RawDiagnostic::CompileError { source_id, span, message } => {
            if *source_id < sources.len() {
                let d = entry(
                    WasmDiagnosticKind::Error,
                    sources[*source_id].as_str(),
                    *span,
                    message.clone(),
                );
                out.push(d);
                assert(diagnostic_models(out@) =~= before_models + diagnostics_of(
                    raw@,
                    texts(sources@),
                ));
            } else {
                assert(diagnostic_models(out@) =~= before_models + diagnostics_of(
                    raw@,
                    texts(sources@),
                ));
            }
        },
        RawDiagnostic::MissingFunction { source_id, hash, spans } => {
            if *source_id < sources.len() {
                let source = sources[*source_id].as_str();
                let ghost wanted = spec_span_entries(
                    source@,
                    spans@,
                    missing_function_message(hash@),
                );
                let mut i: usize = 0;
                while i < spans.len()
                    invariant
                        i <= spans.len(),
                        wanted == spec_span_entries(
                            source@,
                            spans@,
                            missing_function_message(hash@),
                        ),
                        diagnostic_models(out@) =~= before_models + wanted.take(i as int),
                    decreases spans.len() - i,
                {
                    let mut message = String::from_str("missing function (hash: ");
                    message.append(hash.as_str());
                    message.append(")");
                    let d = entry(WasmDiagnosticKind::Error, source, spans[i], message);
                    assert(d@ == wanted[i as int]);
                    assert(wanted.take(i + 1) =~= wanted.take(i as int).push(wanted[i as int]));
                    let ghost earlier = diagnostic_models(out@);
                    out.push(d);
                    assert(diagnostic_models(out@) =~= earlier.push(d@));
                    i += 1;
                }
                assert(wanted.take(spans@.len() as int) =~= wanted);
            } else {
                assert(diagnostic_models(out@) =~= before_models + diagnostics_of(
                    raw@,
                    texts(sources@),
                ));
            }
        },
        RawDiagnostic::Warning { source_id, span, message } => {
            if *source_id < sources.len() {
                let d = entry(
                    WasmDiagnosticKind::Warning,
                    sources[*source_id].as_str(),
                    *span,
                    message.clone(),
                );
                out.push(d);
                assert(diagnostic_models(out@) =~= before_models + diagnostics_of(
                    raw@,
                    texts(sources@),
                ));
            } else {
                assert(diagnostic_models(out@) =~= before_models + diagnostics_of(
                    raw@,
                    texts(sources@),
                ));
            }
        },
        RawDiagnostic::Other => {
            assert(diagnostic_models(out@) =~= before_models + diagnostics_of(
                raw@,
                texts(sources@),
            ));
        },
    }
}

/// The structured diagnostics for everything that the compiler reported,
/// in the order of the reports. Nothing is dropped after a first error.
pub fn collect_diagnostics(raw: &Vec<RawDiagnostic>, sources: &Vec<String>) -> (r: Vec<
    WasmDiagnostic,
>)
    ensures
        diagnostic_models(r@) == spec_collect(raw_models(raw@), texts(sources@)),
{
    let mut out: Vec<WasmDiagnostic> = Vec::new();
    let mut i: usize = 0;
    assert(raw_models(raw@).take(0) =~= Seq::<RawModel>::empty());
    assert(diagnostic_models(out@) =~= Seq::<DiagnosticModel>::empty());
    while i < raw.len()
        invariant
            i <= raw.len(),
            diagnostic_models(out@) == spec_collect(
                raw_models(raw@).take(i as int),
                texts(sources@),
            ),
        decreases raw.len() - i,
    {
        let ghost upto = raw_models(raw@).take(i + 1);
        assert(upto.drop_last() =~= raw_models(raw@).take(i as int));
        assert(upto.last() == raw@[i as int]@);
        push_diagnostics(&mut out, &raw[i], sources);
        i += 1;
    }
    assert(raw_models(raw@).take(raw@.len() as int) =~= raw_models(raw@));
    out
}

} // verus!
