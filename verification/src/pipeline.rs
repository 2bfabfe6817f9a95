use vstd::prelude::*;
use vstd::string::StringExecFns;
use crate::config::{spec_budget, CompilerParams, Config};
use crate::cyb::{module, spec_module, Registry, RegistryModel};
use crate::diagnostics::{
    collect_diagnostics, diagnostic_models, entry, raw_models, spec_collect, spec_entry, texts,
    DiagnosticModel, RawDiagnostic, RawModel, Span, WasmDiagnostic, WasmDiagnosticKind,
};
use crate::helpers::{map_params_to_vec, spec_params};
use crate::options::{first_refused, parse_options};
use crate::result::{
    diagnostics_output, spec_diagnostics_output, spec_trimmed, text_model, ResultModel,
    WasmCompileResult,
};
use crate::setup::{spec_message, SetupError};
use crate::text::same_text;
use crate::value::{script_models, HostModel, HostValue, ScriptModel, ScriptValue};

verus! {

/// How far a request has come.
#[derive(Clone, Copy, Debug, PartialEq, Eq, Structural)]
pub enum Stage {
    /// The execution context is being built.
    Setup,
    /// The sources are being compiled.
    Compile,
    /// The entry function is being looked up and given its arguments.
    Load,
    /// The script is running under its budget.
    Execute,
    /// The response has been decided.
    Done,
}

/// Where in the sources a running script failed.
#[derive(Clone, Copy, Debug, PartialEq, Eq, Structural)]
pub struct Location {
    pub source_id: usize,
    pub span: Span,
}

/// Why a script stopped without returning.
#[derive(Clone, Copy, Debug, PartialEq, Eq, Structural)]
pub enum FailureKind {
    /// An ordinary fault of the script.
    Runtime,
    /// The script used up its step budget.
    BudgetExceeded,
}

/// A script that stopped without returning.
#[derive(Debug, PartialEq, Eq)]
pub struct RuntimeFailure {
    pub kind: FailureKind,
    /// The runtime's message.
    pub message: String,
    /// The readable report that the runtime emitted for the failure.
    pub emitted: Vec<u8>,
    /// The place of the failure, where debug information knows it.
    pub location: Option<Location>,
}

/// The mathematical content of a [`RuntimeFailure`].
pub struct FailureModel {
    pub kind: FailureKind,
    pub message: Seq<char>,
    pub emitted: Seq<u8>,
    pub location: Option<Location>,
}

impl View for RuntimeFailure {
    type V = FailureModel;

    open spec fn view(&self) -> FailureModel {
        FailureModel {
            kind: self.kind,
            message: self.message@,
            emitted: self.emitted@,
            location: self.location,
        }
    }
}

/// The runtime's message for a script that ran out of budget.
pub open spec fn budget_text() -> Seq<char> {
    "Halted for unexpected reason `limited`"@
}

/// The kind of a failure, told by the runtime's message: the budget is
/// exceeded where the runtime says that it halted on its limit.
pub fn failure_kind(message: &str) -> (r: FailureKind)
    ensures
        r == FailureKind::BudgetExceeded <==> message@ == budget_text(),
        r == FailureKind::Runtime <==> message@ != budget_text(),
{
    if same_text(message, "Halted for unexpected reason `limited`") {
        FailureKind::BudgetExceeded
    } else {
        FailureKind::Runtime
    }
}

impl RuntimeFailure {
    /// The failure that the runtime reported with `message`.
    pub fn new(message: String, emitted: Vec<u8>, location: Option<Location>) -> (r: Self)
        ensures
            r@ == (FailureModel {
                kind: if message@ == budget_text() {
                    FailureKind::BudgetExceeded
                } else {
                    FailureKind::Runtime
                },
                message: message@,
                emitted: emitted@,
                location,
            }),
    {
        let kind = failure_kind(message.as_str());
        RuntimeFailure { kind, message, emitted, location }
    }
}

/// What the outside work of one stage came to.
#[derive(Debug, PartialEq, Eq)]
pub enum Event {
    /// The execution context was built.
    ContextReady,
    /// The execution context could not be built.
    ContextFailed { message: String },
    /// The compiler ran: its error if it produced no unit, everything it
    /// reported, the readable report if one was asked for, and the
    /// instruction dump if one was asked for and there is a unit.
    Compiled {
        error: Option<String>,
        reports: Vec<RawDiagnostic>,
        emitted: Vec<u8>,
        instructions: Option<Vec<u8>>,
    },
    /// The entry function was found and took its arguments.
    Loaded,
    /// The entry function could not be called.
    LoadFailed { failure: RuntimeFailure },
    /// The script returned a value, given in its printed form.
    Returned { value: String },
    /// The script stopped without returning.
    Failed { failure: RuntimeFailure },
}

/// The mathematical content of an [`Event`].
pub enum EventModel {
    ContextReady,
    ContextFailed { message: Seq<char> },
    Compiled {
        error: Option<Seq<char>>,
        reports: Seq<RawModel>,
        emitted: Seq<u8>,
        instructions: Option<Seq<u8>>,
    },
    Loaded,
    LoadFailed { failure: FailureModel },
    Returned { value: Seq<char> },
    Failed { failure: FailureModel },
}

/// The content of emitted bytes that may be missing.
pub open spec fn bytes_model(bytes: Option<Vec<u8>>) -> Option<Seq<u8>> {
    match bytes {
        Some(b) => Some(b@),
        None => None,
    }
}

impl View for Event {
    type V = EventModel;

    open spec fn view(&self) -> EventModel {
        match self {
            Event::ContextReady => EventModel::ContextReady,
            Event::ContextFailed { message } => EventModel::ContextFailed { message: message@ },
            Event::Compiled { error, reports, emitted, instructions } => EventModel::Compiled {
                error: text_model(*error),
                reports: raw_models(reports@),
                emitted: emitted@,
                instructions: bytes_model(*instructions),
            },
            Event::Loaded => EventModel::Loaded,
            Event::LoadFailed { failure } => EventModel::LoadFailed { failure: failure@ },
            Event::Returned { value } => EventModel::Returned { value: value@ },
            Event::Failed { failure } => EventModel::Failed { failure: failure@ },
        }
    }
}

/// How a request ends, but for what the script printed.
#[derive(Debug, PartialEq, Eq)]
pub enum Verdict {
    Success {
        result: String,
        diagnostics_output: Option<String>,
        diagnostics: Vec<WasmDiagnostic>,
        instructions: Option<String>,
    },
    Failure {
        error: String,
        diagnostics_output: Option<String>,
        diagnostics: Vec<WasmDiagnostic>,
        instructions: Option<String>,
    },
}

/// The mathematical content of a [`Verdict`].
pub enum VerdictModel {
    Success {
        result: Seq<char>,
        diagnostics_output: Option<Seq<char>>,
        diagnostics: Seq<DiagnosticModel>,
        instructions: Option<Seq<char>>,
    },
    Failure {
        error: Seq<char>,
        diagnostics_output: Option<Seq<char>>,
        diagnostics: Seq<DiagnosticModel>,
        instructions: Option<Seq<char>>,
    },
}

impl View for Verdict {
    type V = VerdictModel;

    open spec fn view(&self) -> VerdictModel {
        match self {
            Verdict::Success {
                result,
                diagnostics_output,
                diagnostics,
                instructions,
            } => VerdictModel::Success {
                result: result@,
                diagnostics_output: text_model(*diagnostics_output),
                diagnostics: diagnostic_models(diagnostics@),
                instructions: text_model(*instructions),
            },
            Verdict::Failure {
                error,
                diagnostics_output,
                diagnostics,
                instructions,
            } => VerdictModel::Failure {
                error: error@,
                diagnostics_output: text_model(*diagnostics_output),
                diagnostics: diagnostic_models(diagnostics@),
                instructions: text_model(*instructions),
            },
        }
    }
}

/// The response that a verdict makes with what the script printed.
pub open spec fn spec_assemble(verdict: VerdictModel, captured: Option<Seq<char>>) -> ResultModel {
    match verdict {
        VerdictModel::Success {
            result,
            diagnostics_output,
            diagnostics,
            instructions,
        } => ResultModel {
            error: None,
            diagnostics_output,
            diagnostics,
            result: Some(result),
            output: spec_trimmed(captured),
            instructions,
        },
        VerdictModel::Failure {
            error,
            diagnostics_output,
            diagnostics,
            instructions,
        } => ResultModel {
            error: Some(error),
            diagnostics_output,
            diagnostics,
            result: None,
            output: spec_trimmed(captured),
            instructions,
        },
    }
}

impl Verdict {
    /// The response: the verdict together with what the script printed,
    /// which is kept whether the request ended well or not.
    pub fn assemble(self, captured: Option<String>) -> (r: WasmCompileResult)
        ensures
            r@ == spec_assemble(self@, text_model(captured)),
    {
        match self {
            Verdict::Success {
                result,
                diagnostics_output,
                diagnostics,
                instructions,
            } => WasmCompileResult::output(
                captured,
                result,
                diagnostics_output,
                diagnostics,
                instructions,
            ),
            Verdict::Failure {
                error,
                diagnostics_output,
                diagnostics,
                instructions,
            } => WasmCompileResult::from_error(
                captured,
                error,
                diagnostics_output,
                diagnostics,
                instructions,
            ),
        }
    }
}

/// A request on its way through the stages.
#[derive(Debug, PartialEq, Eq)]
pub struct Pipeline {
    pub stage: Stage,
    /// Whether the script is run after it compiled.
    pub execute: bool,
    /// The entry function.
    pub func_name: String,
    /// The arguments of the entry function, as the request gave them.
    pub func_params: HostValue,
    /// The number of steps that the script may take.
    pub budget: usize,
    /// Compiler options, not yet applied.
    pub options: Vec<String>,
    /// Whether the compiler's readable report is wanted.
    pub emit_text: bool,
    /// Whether an instruction dump is wanted.
    pub dump_instructions: bool,
    /// The source texts, by source id: the primary source, then the
    /// auxiliary scripts if there are any.
    pub sources: Vec<String>,
    /// The structured diagnostics so far.
    pub diagnostics: Vec<WasmDiagnostic>,
    /// The readable report so far.
    pub emitted: Vec<u8>,
    /// The instruction dump, once there is one.
    pub instructions: Option<String>,
}

/// The mathematical content of a [`Pipeline`].
pub struct PipelineModel {
    pub stage: Stage,
    pub execute: bool,
    pub func_name: Seq<char>,
    pub func_params: HostModel,
    pub budget: usize,
    pub options: Seq<String>,
    pub emit_text: bool,
    pub dump_instructions: bool,
    pub sources: Seq<Seq<char>>,
    pub diagnostics: Seq<DiagnosticModel>,
    pub emitted: Seq<u8>,
    pub instructions: Option<Seq<char>>,
}

impl View for Pipeline {
    type V = PipelineModel;

    open spec fn view(&self) -> PipelineModel {
        PipelineModel {
            stage: self.stage,
            execute: self.execute,
            func_name: self.func_name@,
            func_params: self.func_params@,
            budget: self.budget,
            options: self.options@,
            emit_text: self.emit_text,
            dump_instructions: self.dump_instructions,
            sources: texts(self.sources@),
            diagnostics: diagnostic_models(self.diagnostics@),
            emitted: self.emitted@,
            instructions: text_model(self.instructions),
        }
    }
}

/// The outside work that a request asks for next, or its end.
pub enum Action {
    /// Build the execution context: install the registry's constants and
    /// capabilities, the output sink and the standard modules, and the
    /// experimental module if `experimental` is set.
    BuildContext { registry: Registry, experimental: bool },
    /// Compile the sources of the pipeline with these options. Emit the
    /// readable report if `emit_text` is set, and dump the instructions of
    /// the unit if `dump_instructions` is set.
    Compile { options: rune::Options, emit_text: bool, dump_instructions: bool },
    /// Look the entry function up and hand it these arguments.
    Load { entry: String, args: Vec<ScriptValue> },
    /// Run the script for at most `budget` steps.
    Execute { budget: usize },
    /// Answer the request.
    Respond { verdict: Verdict },
}

/// The mathematical content of an [`Action`]. The compiler's option set is
/// opaque and has no part in it.
pub enum ActionModel {
    BuildContext { registry: RegistryModel, experimental: bool },
    Compile { emit_text: bool, dump_instructions: bool },
    Load { entry: Seq<char>, args: Seq<ScriptModel> },
    Execute { budget: usize },
    Respond { verdict: VerdictModel },
}

impl View for Action {
    type V = ActionModel;

    open spec fn view(&self) -> ActionModel {
        match self {
            Action::BuildContext { registry, experimental } => ActionModel::BuildContext {
                registry: registry@,
                experimental: *experimental,
            },
            Action::Compile { options, emit_text, dump_instructions } => ActionModel::Compile {
                emit_text: *emit_text,
                dump_instructions: *dump_instructions,
            },
            Action::Load { entry, args } => ActionModel::Load {
                entry: entry@,
                args: script_models(args@),
            },
            Action::Execute { budget } => ActionModel::Execute { budget: *budget },
            Action::Respond { verdict } => ActionModel::Respond { verdict: verdict@ },
        }
    }
}

/// The verdict of a request that failed before anything was compiled.
pub open spec fn bare_failure(error: Seq<char>) -> VerdictModel {
    VerdictModel::Failure {
        error,
        diagnostics_output: None,
        diagnostics: Seq::empty(),
        instructions: None,
    }
}

/// A pipeline that has decided its response and holds nothing any more.
pub open spec fn finished(p: PipelineModel) -> PipelineModel {
    PipelineModel {
        stage: Stage::Done,
        diagnostics: Seq::empty(),
        emitted: Seq::empty(),
        instructions: None,
        ..p
    }
}

/// The source texts of a request: the primary source, then the auxiliary
/// scripts unless they are empty.
pub open spec fn source_texts(input: Seq<char>, scripts: Seq<char>) -> Seq<Seq<char>> {
    if scripts.len() > 0 {
        seq![input, scripts]
    } else {
        seq![input]
    }
}

/// The printed form of the empty text, which a request that runs nothing
/// gives as its result.
pub open spec fn empty_result() -> Seq<char> {
    "\"\""@
}

/// The error text for a script that stopped without returning.
pub open spec fn failure_error(failure: FailureModel) -> Seq<char> {
    match failure.kind {
        FailureKind::BudgetExceeded => "step budget exceeded"@,
        FailureKind::Runtime => failure.message,
    }
}

/// The diagnostic for a failure whose place is known and lies in one of
/// the sources; none otherwise.
pub open spec fn failure_diagnostics(sources: Seq<Seq<char>>, failure: FailureModel) -> Seq<
    DiagnosticModel,
> {
    match failure.location {
        Some(location) => if location.source_id < sources.len() {
            seq![
                spec_entry(
                    WasmDiagnosticKind::Error,
                    sources[location.source_id as int],
                    location.span,
                    failure_error(failure),
                ),
            ]
        } else {
            Seq::empty()
        },
        None => Seq::empty(),
    }
}

/// The verdict on a script that stopped without returning: its error, the
/// diagnostics so far and one more if the place is known, and the readable
/// report so far with the runtime's report behind it.
pub open spec fn failure_verdict(p: PipelineModel, failure: FailureModel) -> VerdictModel {
    VerdictModel::Failure {
        error: failure_error(failure),
        diagnostics_output: spec_diagnostics_output(p.emitted + failure.emitted),
        diagnostics: p.diagnostics + failure_diagnostics(p.sources, failure),
        instructions: p.instructions,
    }
}

/// The state and first action of a request.
pub open spec fn spec_start(
    input: Seq<char>,
    scripts: Seq<char>,
    params: HostModel,
    request: CompilerParams,
) -> (PipelineModel, ActionModel) {
    let p = PipelineModel {
        stage: Stage::Setup,
        execute: request.execute,
        func_name: request.func_name@,
        func_params: request.func_params@,
        budget: match spec_budget(request.config.budget) {
            Ok(steps) => steps,
            Err(_) => 0,
        },
        options: request.config.options@,
        emit_text: !request.config.suppress_text_warnings,
        dump_instructions: request.config.instructions && request.execute,
        sources: source_texts(input, scripts),
        diagnostics: Seq::empty(),
        emitted: Seq::empty(),
        instructions: None,
    };
    match spec_budget(request.config.budget) {
        Err(fault) => (
            finished(p),
            ActionModel::Respond { verdict: bare_failure(spec_message(fault)) },
        ),
        Ok(_) => match spec_module(params, request.read_only) {
            Err(fault) => (
                finished(p),
                ActionModel::Respond { verdict: bare_failure(spec_message(fault)) },
            ),
            Ok(registry) => (
                p,
                ActionModel::BuildContext { registry, experimental: request.config.experimental },
            ),
        },
    }
}

/// What follows the compiler's run.
pub open spec fn spec_compiled(
    p: PipelineModel,
    error: Option<Seq<char>>,
    reports: Seq<RawModel>,
    emitted: Seq<u8>,
    instructions: Option<Seq<u8>>,
) -> (PipelineModel, ActionModel) {
    let diagnostics = spec_collect(reports, p.sources);
    match error {
        Some(message) => (
            finished(p),
            ActionModel::Respond {
                verdict: VerdictModel::Failure {
                    error: message,
                    diagnostics_output: spec_diagnostics_output(emitted),
                    diagnostics,
                    instructions: None,
                },
            },
        ),
        None => if !p.execute {
            (
                finished(p),
                ActionModel::Respond {
                    verdict: VerdictModel::Success {
                        result: empty_result(),
                        diagnostics_output: spec_diagnostics_output(emitted),
                        diagnostics,
                        instructions: None,
                    },
                },
            )
        } else if p.dump_instructions && instructions is Some && spec_diagnostics_output(
            instructions->Some_0,
        ) is None {
            (
                finished(p),
                ActionModel::Respond {
                    verdict: bare_failure("converting instructions to UTF-8"@),
                },
            )
        } else {
            (
                PipelineModel {
                    stage: Stage::Load,
                    diagnostics,
                    emitted,
                    instructions: if p.dump_instructions && instructions is Some {
                        spec_diagnostics_output(instructions->Some_0)
                    } else {
                        None
                    },
                    ..p
                },
                ActionModel::Load { entry: p.func_name, args: spec_params(p.func_params) },
            )
        },
    }
}

/// The next state and action of a request, for every stage and event but
/// the end of the setup, where the compiler has its say on the options.
pub open spec fn spec_step(p: PipelineModel, event: EventModel) -> (PipelineModel, ActionModel) {
    match (p.stage, event) {
        (Stage::Setup, EventModel::ContextFailed { message }) => (
            finished(p),
            ActionModel::Respond { verdict: bare_failure(message) },
        ),
        (Stage::Compile, EventModel::Compiled { error, reports, emitted, instructions }) => {
            spec_compiled(p, error, reports, emitted, instructions)
        },
        (Stage::Load, EventModel::Loaded) => (
            PipelineModel { stage: Stage::Execute, ..p },
            ActionModel::Execute { budget: p.budget },
        ),
        (Stage::Load, EventModel::LoadFailed { failure }) => (
            finished(p),
            ActionModel::Respond {
                verdict: failure_verdict(p, FailureModel { location: None, ..failure }),
            },
        ),
        (Stage::Execute, EventModel::Returned { value }) => (
            finished(p),
            ActionModel::Respond {
                verdict: VerdictModel::Success {
                    result: value,
                    diagnostics_output: spec_diagnostics_output(p.emitted),
                    diagnostics: p.diagnostics,
                    instructions: p.instructions,
                },
            },
        ),
        (Stage::Execute, EventModel::Failed { failure }) => (
            finished(p),
            ActionModel::Respond { verdict: failure_verdict(p, failure) },
        ),
        _ => (finished(p), ActionModel::Respond { verdict: bare_failure("unexpected event"@) }),
    }
}

/// The verdict of a request that failed before anything was compiled.
fn fail_bare(error: String) -> (r: Verdict)
    ensures
        r@ == bare_failure(error@),
{
    let verdict = Verdict::Failure {
        error,
        diagnostics_output: None,
        diagnostics: Vec::new(),
        instructions: None,
    };
    assert(verdict@->Failure_diagnostics =~= Seq::<DiagnosticModel>::empty());
    verdict
}

/// The verdict on a script that stopped without returning.
fn fail_run(
    sources: &Vec<String>,
    diagnostics: Vec<WasmDiagnostic>,
    emitted: Vec<u8>,
    instructions: Option<String>,
    failure: RuntimeFailure,
) -> (r: Verdict)
    ensures
        r@ == (VerdictModel::Failure {
            error: failure_error(failure@),
            diagnostics_output: spec_diagnostics_output(emitted@ + failure@.emitted),
            diagnostics: diagnostic_models(diagnostics@) + failure_diagnostics(
                texts(sources@),
                failure@,
            ),
            instructions: text_model(instructions),
        }),
{
    let RuntimeFailure { kind, message, emitted: report, location } = failure;
    let error = match kind {
        FailureKind::BudgetExceeded => String::from_str("step budget exceeded"),
        FailureKind::Runtime => message,
    };
    let mut diagnostics = diagnostics;
    let ghost earlier = diagnostic_models(diagnostics@);
    match location {
        Some(place) => {
            if place.source_id < sources.len() {
                let d = entry(
                    WasmDiagnosticKind::Error,
                    sources[place.source_id].as_str(),
                    place.span,
                    error.clone(),
                );
                diagnostics.push(d);
            }
        },
        None => {},
    }
    assert(diagnostic_models(diagnostics@) =~= earlier + failure_diagnostics(
        texts(sources@),
        failure@,
    ));
    let mut text = emitted;
    let mut report = report;
    text.append(&mut report);
    Verdict::Failure {
        error,
        diagnostics_output: diagnostics_output(text),
        diagnostics,
        instructions,
    }
}

impl Pipeline {
    /// Takes a request in: fixes the step budget, lays out the sources and
    /// builds the capability registry. Asks for the execution context, or
    /// answers at once where the configuration is at fault.
    pub fn start(input: String, scripts: String, params: &HostValue, request: CompilerParams) -> (r:
        (Pipeline, Action))
        ensures
            (r.0@, r.1@) == spec_start(input@, scripts@, params@, request),
    {
        let ghost wanted = spec_start(input@, scripts@, params@, request);
        let budget = request.config.effective_budget();
        let registry = module(params, request.read_only);
        let CompilerParams { read_only: _, func_name, func_params, execute, config } = request;
        let Config { budget: _, options, experimental, instructions, suppress_text_warnings } =
            config;
        let mut sources: Vec<String> = Vec::new();
        let with_scripts = !scripts.as_str().is_empty();
        sources.push(input);
        if with_scripts {
            sources.push(scripts);
        }
        assert(texts(sources@) =~= source_texts(input@, scripts@));
        let mut pipeline = Pipeline {
            stage: Stage::Setup,
            execute,
            func_name,
            func_params,
            budget: 0,
            options,
            emit_text: !suppress_text_warnings,
            dump_instructions: instructions && execute,
            sources,
            diagnostics: Vec::new(),
            emitted: Vec::new(),
            instructions: None,
        };
        assert(diagnostic_models(pipeline.diagnostics@) =~= Seq::<DiagnosticModel>::empty());
        match budget {
            Err(e) => {
                pipeline.stage = Stage::Done;
                (pipeline, Action::Respond { verdict: fail_bare(e.message()) })
            },
            Ok(steps) => {
                pipeline.budget = steps;
                match registry {
                    Err(e) => {
                        pipeline.stage = Stage::Done;
                        (pipeline, Action::Respond { verdict: fail_bare(e.message()) })
                    },
                    Ok(registry) => (pipeline, Action::BuildContext { registry, experimental }),
                }
            },
        }
    }

    /// Ends the setup with the compiler's word on the options: goes on to
    /// compile with the parsed options, or answers with the setup error.
    pub fn after_setup(self, parsed: Result<rune::Options, SetupError>) -> (r: (Pipeline, Action))
        ensures
            match parsed {
                Ok(_) => r.0@ == (PipelineModel { stage: Stage::Compile, ..self@ }) && r.1@ == (
                    ActionModel::Compile {
                        emit_text: self.emit_text,
                        dump_instructions: self.dump_instructions,
                    }),
                Err(e) => r.0@ == finished(self@) && r.1@ == (ActionModel::Respond {
                    verdict: bare_failure(spec_message(e@)),
                }),
            },
    {
        let mut pipeline = self;
        match parsed {
            Ok(options) => {
                pipeline.stage = Stage::Compile;
                let emit_text = pipeline.emit_text;
                let dump_instructions = pipeline.dump_instructions;
                (pipeline, Action::Compile { options, emit_text, dump_instructions })
            },
            Err(e) => {
                let halted = pipeline.finish();
                (halted, Action::Respond { verdict: fail_bare(e.message()) })
            },
        }
    }

    /// The pipeline with its response decided and nothing held any more.
    fn finish(self) -> (r: Pipeline)
        ensures
            r@ == finished(self@),
    {
        let mut pipeline = self;
        pipeline.stage = Stage::Done;
        pipeline.diagnostics = Vec::new();
        pipeline.emitted = Vec::new();
        pipeline.instructions = None;
        assert(diagnostic_models(pipeline.diagnostics@) =~= Seq::<DiagnosticModel>::empty());
        pipeline
    }
}

impl Pipeline {
    /// What follows the compiler's run. A unit that did not compile ends
    /// the request with the compiler's error; a request that only compiles
    /// ends here too, with the empty result. Otherwise the entry function
    /// is loaded with the request's arguments, a single value that is no
    /// array counting as one argument. Everything that the compiler
    /// reported becomes a diagnostic in either case.
    pub fn compiled(
        self,
        error: Option<String>,
        reports: Vec<RawDiagnostic>,
        emitted: Vec<u8>,
        instructions: Option<Vec<u8>>,
    ) -> (r: (Pipeline, Action))
        ensures
            (r.0@, r.1@) == spec_compiled(
                self@,
                text_model(error),
                raw_models(reports@),
                emitted@,
                bytes_model(instructions),
            ),
    {
        let diagnostics = collect_diagnostics(&reports, &self.sources);
        match error {
            Some(message) => {
                let verdict = Verdict::Failure {
                    error: message,
                    diagnostics_output: diagnostics_output(emitted),
                    diagnostics,
                    instructions: None,
                };
                (self.finish(), Action::Respond { verdict })
            },
            None => {
                if !self.execute {
                    let verdict = Verdict::Success {
                        result: String::from_str("\"\""),
                        diagnostics_output: diagnostics_output(emitted),
                        diagnostics,
                        instructions: None,
                    };
                    return (self.finish(), Action::Respond { verdict });
                }
                let dump = match instructions {
                    Some(bytes) => {
                        if self.dump_instructions {
                            match diagnostics_output(bytes) {
                                Some(text) => Some(text),
                                None => {
                                    let verdict = fail_bare(
                                        String::from_str("converting instructions to UTF-8"),
                                    );
                                    return (self.finish(), Action::Respond { verdict });
                                },
                            }
                        } else {
                            None
                        }
                    },
                    None => None,
                };
                let mut pipeline = self;
                pipeline.stage = Stage::Load;
                pipeline.diagnostics = diagnostics;
                pipeline.emitted = emitted;
                pipeline.instructions = dump;
                let entry = pipeline.func_name.clone();
                let args = map_params_to_vec(&pipeline.func_params);
                (pipeline, Action::Load { entry, args })
            },
        }
    }

    /// Takes the outcome of the outside work that the last action asked
    /// for, and says what comes next. An event that does not belong to the
    /// stage ends the request with an error.
    pub fn step(self, event: Event) -> (r: (Pipeline, Action))
        ensures
            !(self.stage == Stage::Setup && event is ContextReady) ==> (r.0@, r.1@) == spec_step(
                self@,
                event@,
            ),
            self.stage == Stage::Setup && event is ContextReady && first_refused(self.options@)
                is None ==> r.0@ == (PipelineModel { stage: Stage::Compile, ..self@ }) && r.1@
                == (ActionModel::Compile {
                emit_text: self.emit_text,
                dump_instructions: self.dump_instructions,
            }),
            self.stage == Stage::Setup && event is ContextReady && first_refused(self.options@)
                is Some ==> r.0@ == finished(self@) && (r.1@ matches ActionModel::Respond {
                verdict,
            } && verdict matches VerdictModel::Failure { error, .. } && verdict == bare_failure(
                error,
            )),
    {
        match self.stage {
            Stage::Setup => match event {
                Event::ContextReady => {
                    let parsed = parse_options(&self.options);
                    self.after_setup(parsed)
                },
                Event::ContextFailed { message } => {
                    (self.finish(), Action::Respond { verdict: fail_bare(message) })
                },
                _ => self.refuse(),
            },
            Stage::Compile => match event {
                Event::Compiled { error, reports, emitted, instructions } => {
                    self.compiled(error, reports, emitted, instructions)
                },
                _ => self.refuse(),
            },
            Stage::Load => match event {
                Event::Loaded => {
                    let mut pipeline = self;
                    pipeline.stage = Stage::Execute;
                    let budget = pipeline.budget;
                    (pipeline, Action::Execute { budget })
                },
                Event::LoadFailed { failure } => {
                    let RuntimeFailure { kind, message, emitted, location: _ } = failure;
                    self.failed(RuntimeFailure { kind, message, emitted, location: None })
                },
                _ => self.refuse(),
            },
            Stage::Execute => match event {
                Event::Returned { value } => {
                    let Pipeline {
                        stage,
                        execute,
                        func_name,
                        func_params,
                        budget,
                        options,
                        emit_text,
                        dump_instructions,
                        sources,
                        diagnostics,
                        emitted,
                        instructions,
                    } = self;
                    let verdict = Verdict::Success {
                        result: value,
                        diagnostics_output: diagnostics_output(emitted),
                        diagnostics,
                        instructions,
                    };
                    let halted = Pipeline {
                        stage: Stage::Done,
                        execute,
                        func_name,
                        func_params,
                        budget,
                        options,
                        emit_text,
                        dump_instructions,
                        sources,
                        diagnostics: Vec::new(),
                        emitted: Vec::new(),
                        instructions: None,
                    };
                    assert(diagnostic_models(halted.diagnostics@) =~= Seq::<
                        DiagnosticModel,
                    >::empty());
                    (halted, Action::Respond { verdict })
                },
                Event::Failed { failure } => self.failed(failure),
                _ => self.refuse(),
            },
            Stage::Done => self.refuse(),
        }
    }

    /// Ends the request on a script that stopped without returning.
    fn failed(self, failure: RuntimeFailure) -> (r: (Pipeline, Action))
        ensures
            r.0@ == finished(self@),
            r.1@ == (ActionModel::Respond { verdict: failure_verdict(self@, failure@) }),
    {
        let Pipeline {
            stage,
            execute,
            func_name,
            func_params,
            budget,
            options,
            emit_text,
            dump_instructions,
            sources,
            diagnostics,
            emitted,
            instructions,
        } = self;
        let verdict = fail_run(&sources, diagnostics, emitted, instructions, failure);
        let halted = Pipeline {
            stage: Stage::Done,
            execute,
            func_name,
            func_params,
            budget,
            options,
            emit_text,
            dump_instructions,
            sources,
            diagnostics: Vec::new(),
            emitted: Vec::new(),
            instructions: None,
        };
        assert(diagnostic_models(halted.diagnostics@) =~= Seq::<DiagnosticModel>::empty());
        (halted, Action::Respond { verdict })
    }

    /// Ends the request on an event that does not belong to the stage.
    fn refuse(self) -> (r: (Pipeline, Action))
        ensures
            r.0@ == finished(self@),
            r.1@ == (ActionModel::Respond { verdict: bare_failure("unexpected event"@) }),
    {
        let verdict = fail_bare(String::from_str("unexpected event"));
        (self.finish(), Action::Respond { verdict })
    }
}

/// A library module that the execution context is built from.
#[derive(Clone, Copy, Debug, PartialEq, Eq, Structural)]
pub enum ContextModule {
    /// The sink that captures what the script prints.
    CaptureIo,
    /// The capabilities and constants of the registry.
    Capabilities,
    Http,
    Json,
    Toml,
    Rand,
    /// The optional module of experimental features.
    Experiments,
}

/// One module to install, and whether it may use standard input and output.
#[derive(Clone, Copy, Debug, PartialEq, Eq, Structural)]
pub struct ModuleInstall {
    pub module: ContextModule,
    pub stdio: bool,
}

/// The modules of an execution context, in the order of their installation:
/// always the same six, and the experimental one behind them on request.
pub open spec fn spec_context_plan(experimental: bool) -> Seq<ModuleInstall> {
    let base = seq![
        ModuleInstall { module: ContextModule::CaptureIo, stdio: false },
        ModuleInstall { module: ContextModule::Capabilities, stdio: false },
        ModuleInstall { module: ContextModule::Http, stdio: true },
        ModuleInstall { module: ContextModule::Json, stdio: true },
        ModuleInstall { module: ContextModule::Toml, stdio: false },
        ModuleInstall { module: ContextModule::Rand, stdio: false },
    ];
    if experimental {
        base.push(ModuleInstall { module: ContextModule::Experiments, stdio: false })
    } else {
        base
    }
}

/// The modules to install into a fresh execution context, in order.
pub fn setup_context(experimental: bool) -> (r: Vec<ModuleInstall>)
    ensures
        r@ == spec_context_plan(experimental),
{
    let mut plan: Vec<ModuleInstall> = Vec::new();
    plan.push(ModuleInstall { module: ContextModule::CaptureIo, stdio: false });
    plan.push(ModuleInstall { module: ContextModule::Capabilities, stdio: false });
    plan.push(ModuleInstall { module: ContextModule::Http, stdio: true });
    plan.push(ModuleInstall { module: ContextModule::Json, stdio: true });
    plan.push(ModuleInstall { module: ContextModule::Toml, stdio: false });
    plan.push(ModuleInstall { module: ContextModule::Rand, stdio: false });
    if experimental {
        plan.push(ModuleInstall { module: ContextModule::Experiments, stdio: false });
    }
    assert(plan@ =~= spec_context_plan(experimental));
    plan
}

/// A response holds an error or a result, never both and never neither.
pub proof fn lemma_error_or_result(verdict: VerdictModel, captured: Option<Seq<char>>)
    ensures
        spec_assemble(verdict, captured).error is Some <==> spec_assemble(
            verdict,
            captured,
        ).result is None,
        spec_assemble(verdict, captured).output == spec_trimmed(captured),
{
}

/// Budget termination: a script that uses up its budget always ends the
/// request with the budget error, whatever the runtime's message says, and
/// the response keeps what the script printed and every diagnostic
/// collected before.
pub proof fn lemma_budget_exceeded_reported(
    p: PipelineModel,
    failure: FailureModel,
    captured: Option<Seq<char>>,
)
    requires
        p.stage == Stage::Execute,
        failure.kind == FailureKind::BudgetExceeded,
    ensures
        spec_step(p, EventModel::Failed { failure }).0.stage == Stage::Done,
        spec_step(p, EventModel::Failed { failure }).1 is Respond,
        ({
            let response = spec_assemble(
                spec_step(p, EventModel::Failed { failure }).1->Respond_verdict,
                captured,
            );
            &&& response.error == Some("step budget exceeded"@)
            &&& response.result is None
            &&& response.output == spec_trimmed(captured)
            &&& p.diagnostics.is_prefix_of(response.diagnostics)
            &&& response.instructions == p.instructions
        }),
{
}

/// A request that only compiles, on sources that compile, ends with the
/// empty result and no error, and its diagnostics are those of the
/// compiler's reports: none where the compiler reported nothing.
pub proof fn lemma_compile_only(
    p: PipelineModel,
    reports: Seq<RawModel>,
    emitted: Seq<u8>,
    instructions: Option<Seq<u8>>,
    captured: Option<Seq<char>>,
)
    requires
        p.stage == Stage::Compile,
        !p.execute,
    ensures
        ({
            let event = EventModel::Compiled { error: None, reports, emitted, instructions };
            let next = spec_step(p, event);
            &&& next.0.stage == Stage::Done
            &&& next.1 is Respond
            &&& spec_assemble(next.1->Respond_verdict, captured).error is None
            &&& spec_assemble(next.1->Respond_verdict, captured).result == Some(empty_result())
            &&& spec_assemble(next.1->Respond_verdict, captured).instructions is None
            &&& spec_assemble(next.1->Respond_verdict, captured).diagnostics == spec_collect(
                reports,
                p.sources,
            )
            &&& reports.len() == 0 ==> spec_assemble(
                next.1->Respond_verdict,
                captured,
            ).diagnostics.len() == 0
        }),
{
}

/// Every step either answers the request and ends it, or moves it one
/// stage on: no stage is entered twice.
pub proof fn lemma_step_advances(p: PipelineModel, event: EventModel)
    requires
        !(p.stage == Stage::Setup && event is ContextReady),
    ensures
        spec_step(p, event).1 is Respond <==> spec_step(p, event).0.stage == Stage::Done,
        spec_step(p, event).1 is Load ==> p.stage == Stage::Compile && spec_step(p, event).0.stage
            == Stage::Load,
        spec_step(p, event).1 is Execute ==> p.stage == Stage::Load && spec_step(
            p,
            event,
        ).0.stage == Stage::Execute,
        !(spec_step(p, event).1 is BuildContext),
        !(spec_step(p, event).1 is Compile),
{
}

/// The budget of a request that got past its start is positive, and no
/// step changes it: the script is never run on a budget of zero.
pub proof fn lemma_budget_positive(
    input: Seq<char>,
    scripts: Seq<char>,
    params: HostModel,
    request: CompilerParams,
    p: PipelineModel,
    event: EventModel,
)
    ensures
        spec_start(input, scripts, params, request).1 is BuildContext ==> spec_start(
            input,
            scripts,
            params,
            request,
        ).0.budget > 0,
        spec_step(p, event).0.budget == p.budget,
        spec_step(p, event).1 matches ActionModel::Execute { budget } ==> budget == p.budget,
{
}

} // verus!
