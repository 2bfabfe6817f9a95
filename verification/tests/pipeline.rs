use cyb_runtime::config::{CompilerParams, Config};
use cyb_runtime::cyb::capability_table;
use cyb_runtime::diagnostics::{
    collect_diagnostics, RawDiagnostic, Span, WasmDiagnostic, WasmDiagnosticKind,
};
use cyb_runtime::pipeline::{
    failure_kind, setup_context, Action, ContextModule, Event, FailureKind, Location,
    ModuleInstall, Pipeline, RuntimeFailure, Stage, Verdict,
};
use cyb_runtime::position::WasmPosition;
use cyb_runtime::value::{HostNumber, HostValue, ScriptValue};
use cyb_runtime::WasmCompileResult;

const BUDGET_TEXT: &str = "Halted for unexpected reason `limited`";

fn text(s: &str) -> String {
    String::from(s)
}

fn at(line: u32, character: u32) -> WasmPosition {
    WasmPosition { line, character }
}

fn host_params() -> HostValue {
    HostValue::Object(vec![
        (text("app"), HostValue::Object(vec![])),
        (text("refId"), HostValue::String(text("req-1"))),
    ])
}

fn request(execute: bool, func_params: HostValue) -> CompilerParams {
    CompilerParams {
        read_only: true,
        func_name: text("main"),
        func_params,
        execute,
        config: Config::default(),
    }
}

fn forty_one() -> HostValue {
    HostValue::Array(vec![HostValue::Number(HostNumber::PosInt(41))])
}

const SOURCE: &str = "pub fn main(n) {\n    n + 1\n}\n";

fn clean_compile() -> Event {
    Event::Compiled { error: None, reports: vec![], emitted: vec![], instructions: None }
}

fn verdict_of(action: Action) -> Verdict {
    match action {
        Action::Respond { verdict } => verdict,
        _ => panic!("the request has not ended"),
    }
}

/// Drives a request to the point where the script runs.
fn running(source: &str, request: CompilerParams) -> Pipeline {
    let (p, action) = Pipeline::start(text(source), String::new(), &host_params(), request);
    assert!(matches!(action, Action::BuildContext { .. }));
    let (p, action) = p.step(Event::ContextReady);
    assert!(matches!(action, Action::Compile { .. }));
    let (p, action) = p.step(clean_compile());
    assert!(matches!(action, Action::Load { .. }));
    let (p, action) = p.step(Event::Loaded);
    assert!(matches!(action, Action::Execute { .. }));
    assert_eq!(p.stage, Stage::Execute);
    p
}

#[test]
fn a_request_starts_by_asking_for_its_context() {
    let mut r = request(true, forty_one());
    r.read_only = false;
    r.config.experimental = true;
    let (p, action) = Pipeline::start(text(SOURCE), String::new(), &host_params(), r);
    assert_eq!(p.stage, Stage::Setup);
    assert_eq!(p.budget, 1_000_000);
    assert_eq!(p.sources, vec![text(SOURCE)]);
    assert!(p.emit_text);
    match action {
        Action::BuildContext { registry, experimental } => {
            assert!(experimental);
            assert_eq!(registry.functions, capability_table());
            assert_eq!(registry.ref_id, ScriptValue::String(text("req-1")));
        }
        _ => panic!("expected the context to be asked for"),
    }
}

#[test]
fn auxiliary_scripts_are_a_second_source() {
    let (p, _) = Pipeline::start(
        text(SOURCE),
        text("pub fn helper() { 1 }"),
        &host_params(),
        request(true, forty_one()),
    );
    assert_eq!(p.sources, vec![text(SOURCE), text("pub fn helper() { 1 }")]);
}

#[test]
fn a_zero_budget_is_refused_at_once() {
    let mut r = request(true, forty_one());
    r.config.budget = Some(0);
    let (p, action) = Pipeline::start(text(SOURCE), String::new(), &host_params(), r);
    assert_eq!(p.stage, Stage::Done);
    let response = verdict_of(action).assemble(None);
    assert_eq!(response.error, Some(text("the step budget must be positive")));
    assert_eq!(response.result, None);
    assert!(response.diagnostics.is_empty());
}

#[test]
fn missing_host_parameters_are_refused_at_once() {
    let (p, action) =
        Pipeline::start(text(SOURCE), String::new(), &HostValue::Null, request(true, forty_one()));
    assert_eq!(p.stage, Stage::Done);
    let response = verdict_of(action).assemble(Some(String::new()));
    assert_eq!(response.error, Some(text("missing host parameter: app")));
    assert_eq!(response.diagnostics_output, None);
}

#[test]
fn a_context_that_cannot_be_built_ends_the_request() {
    let (p, _) =
        Pipeline::start(text(SOURCE), String::new(), &host_params(), request(true, forty_one()));
    let (p, action) = p.step(Event::ContextFailed { message: text("module already installed") });
    assert_eq!(p.stage, Stage::Done);
    let response = verdict_of(action).assemble(None);
    assert_eq!(response.error, Some(text("module already installed")));
}

#[test]
fn an_invalid_option_ends_the_setup() {
    let mut r = request(true, forty_one());
    r.config.options = vec![text("macros=true"), text("frobnicate")];
    let (p, _) = Pipeline::start(text(SOURCE), String::new(), &host_params(), r);
    let (p, action) = p.step(Event::ContextReady);
    assert_eq!(p.stage, Stage::Done);
    let response = verdict_of(action).assemble(None);
    assert!(response.error.unwrap().contains("frobnicate"));
    assert_eq!(response.result, None);
    assert!(response.diagnostics.is_empty());
}

#[test]
fn valid_options_lead_to_the_compiler() {
    let mut r = request(true, forty_one());
    r.config.options = vec![text("debug-info=true")];
    r.config.instructions = true;
    r.config.suppress_text_warnings = true;
    let (p, _) = Pipeline::start(text(SOURCE), String::new(), &host_params(), r);
    let (p, action) = p.step(Event::ContextReady);
    assert_eq!(p.stage, Stage::Compile);
    match action {
        Action::Compile { options: _, emit_text, dump_instructions } => {
            assert!(!emit_text);
            assert!(dump_instructions);
        }
        _ => panic!("expected the compiler to be asked for"),
    }
}

#[test]
fn main_returns_forty_two() {
    let (p, _) =
        Pipeline::start(text(SOURCE), String::new(), &host_params(), request(true, forty_one()));
    let (p, _) = p.step(Event::ContextReady);
    let (p, action) = p.step(clean_compile());
    match action {
        Action::Load { entry, args } => {
            assert_eq!(entry, "main");
            assert_eq!(args, vec![ScriptValue::Integer(41)]);
        }
        _ => panic!("expected the entry function to be loaded"),
    }
    let (p, action) = p.step(Event::Loaded);
    match action {
        Action::Execute { budget } => assert_eq!(budget, 1_000_000),
        _ => panic!("expected the script to be run"),
    }
    let (p, action) = p.step(Event::Returned { value: text("42") });
    assert_eq!(p.stage, Stage::Done);
    let response = verdict_of(action).assemble(Some(String::new()));
    assert_eq!(
        response,
        WasmCompileResult {
            error: None,
            diagnostics_output: Some(String::new()),
            diagnostics: vec![],
            result: Some(text("42")),
            output: Some(String::new()),
            instructions: None,
        }
    );
}

#[test]
fn a_single_parameter_counts_as_one_argument() {
    let single = HostValue::Number(HostNumber::PosInt(41));
    let (p, _) = Pipeline::start(text(SOURCE), String::new(), &host_params(), request(true, single));
    let (p, _) = p.step(Event::ContextReady);
    let (_, action) = p.step(clean_compile());
    match action {
        Action::Load { args, .. } => assert_eq!(args, vec![ScriptValue::Integer(41)]),
        _ => panic!("expected the entry function to be loaded"),
    }
}

#[test]
fn compile_only_gives_the_empty_result() {
    let (p, _) =
        Pipeline::start(text(SOURCE), String::new(), &host_params(), request(false, forty_one()));
    let (p, _) = p.step(Event::ContextReady);
    let (p, action) = p.step(clean_compile());
    assert_eq!(p.stage, Stage::Done);
    let response = verdict_of(action).assemble(Some(String::new()));
    assert_eq!(response.error, None);
    assert_eq!(response.result, Some(text("\"\"")));
    assert_eq!(response.output, Some(String::new()));
    assert!(response.diagnostics.is_empty());
    assert_eq!(response.instructions, None);
}

#[test]
fn compile_only_never_dumps_instructions() {
    let mut r = request(false, forty_one());
    r.config.instructions = true;
    let (p, _) = Pipeline::start(text(SOURCE), String::new(), &host_params(), r);
    assert!(!p.dump_instructions);
}

#[test]
fn a_compile_error_ends_the_request_with_diagnostics() {
    let source = "pub fn main() {\n    let ł = ;\n}\n";
    let (p, _) =
        Pipeline::start(text(source), String::new(), &host_params(), request(true, forty_one()));
    let (p, _) = p.step(Event::ContextReady);
    let start = source.find(';').unwrap();
    let (p, action) = p.step(Event::Compiled {
        error: Some(text("Failed to build rune sources (see diagnostics for details)")),
        reports: vec![
            RawDiagnostic::Warning {
                source_id: 0,
                span: Span { start: 4, end: 6 },
                message: text("unused"),
            },
            RawDiagnostic::CompileError {
                source_id: 0,
                span: Span { start, end: start + 1 },
                message: text("expected expression"),
            },
        ],
        emitted: b"error: expected expression\n\n".to_vec(),
        instructions: None,
    });
    assert_eq!(p.stage, Stage::Done);
    let response = verdict_of(action).assemble(Some(String::new()));
    assert_eq!(
        response.error,
        Some(text("Failed to build rune sources (see diagnostics for details)"))
    );
    assert_eq!(response.result, None);
    assert_eq!(response.diagnostics_output, Some(text("error: expected expression")));
    assert_eq!(
        response.diagnostics,
        vec![
            WasmDiagnostic {
                kind: WasmDiagnosticKind::Warning,
                start: at(0, 4),
                end: at(0, 6),
                message: text("unused"),
            },
            WasmDiagnostic {
                kind: WasmDiagnosticKind::Error,
                start: at(1, 12),
                end: at(1, 13),
                message: text("expected expression"),
            },
        ]
    );
}

#[test]
fn a_compile_error_wins_over_compile_only() {
    let (p, _) =
        Pipeline::start(text("fn"), String::new(), &host_params(), request(false, forty_one()));
    let (p, _) = p.step(Event::ContextReady);
    let (_, action) = p.step(Event::Compiled {
        error: Some(text("build failed")),
        reports: vec![],
        emitted: vec![],
        instructions: None,
    });
    let response = verdict_of(action).assemble(None);
    assert_eq!(response.error, Some(text("build failed")));
    assert_eq!(response.result, None);
}

#[test]
fn every_report_of_the_compiler_is_collected() {
    let sources = vec![text("ab\ncd\nef"), text("żó\nłw")];
    let reports = vec![
        RawDiagnostic::CompileError {
            source_id: 0,
            span: Span { start: 3, end: 5 },
            message: text("first"),
        },
        RawDiagnostic::Other,
        RawDiagnostic::MissingFunction {
            source_id: 1,
            hash: text("0xabc"),
            spans: vec![Span { start: 0, end: 4 }, Span { start: 5, end: 7 }],
        },
        RawDiagnostic::Warning {
            source_id: 7,
            span: Span { start: 0, end: 1 },
            message: text("nowhere"),
        },
        RawDiagnostic::Warning {
            source_id: 0,
            span: Span { start: 6, end: 8 },
            message: text("last"),
        },
        RawDiagnostic::MissingFunction { source_id: 0, hash: text("0x0"), spans: vec![] },
    ];
    let error = WasmDiagnosticKind::Error;
    assert_eq!(
        collect_diagnostics(&reports, &sources),
        vec![
            WasmDiagnostic { kind: error, start: at(1, 0), end: at(1, 2), message: text("first") },
            WasmDiagnostic {
                kind: error,
                start: at(0, 0),
                end: at(0, 2),
                message: text("missing function (hash: 0xabc)"),
            },
            WasmDiagnostic {
                kind: error,
                start: at(1, 0),
                end: at(1, 1),
                message: text("missing function (hash: 0xabc)"),
            },
            WasmDiagnostic {
                kind: WasmDiagnosticKind::Warning,
                start: at(2, 0),
                end: at(2, 2),
                message: text("last"),
            },
        ]
    );
    assert!(collect_diagnostics(&Vec::new(), &sources).is_empty());
}

#[test]
fn an_entry_that_cannot_be_called_ends_the_request() {
    let (p, _) =
        Pipeline::start(text(SOURCE), String::new(), &host_params(), request(true, forty_one()));
    let (p, _) = p.step(Event::ContextReady);
    let (p, _) = p.step(Event::Compiled {
        error: None,
        reports: vec![],
        emitted: b"warning: w\n".to_vec(),
        instructions: None,
    });
    let failure = RuntimeFailure::new(
        text("missing entry `main`"),
        b"error: missing entry\n".to_vec(),
        Some(Location { source_id: 0, span: Span { start: 0, end: 1 } }),
    );
    let (p, action) = p.step(Event::LoadFailed { failure });
    assert_eq!(p.stage, Stage::Done);
    let response = verdict_of(action).assemble(None);
    assert_eq!(response.error, Some(text("missing entry `main`")));
    assert_eq!(response.diagnostics_output, Some(text("warning: w\nerror: missing entry")));
    assert!(response.diagnostics.is_empty());
    assert_eq!(response.output, None);
}

#[test]
fn an_exceeded_budget_is_always_reported() {
    let mut r = request(true, HostValue::Array(vec![]));
    r.config.budget = Some(1000);
    let source = "pub fn main() {\n    println(\"before\");\n    loop {}\n}\n";
    let p = running(source, r);
    assert_eq!(p.budget, 1000);
    let at_loop = source.find("loop").unwrap();
    let failure = RuntimeFailure::new(
        text(BUDGET_TEXT),
        b"error: halted\n".to_vec(),
        Some(Location { source_id: 0, span: Span { start: at_loop, end: at_loop + 7 } }),
    );
    assert_eq!(failure.kind, FailureKind::BudgetExceeded);
    let (p, action) = p.step(Event::Failed { failure });
    assert_eq!(p.stage, Stage::Done);
    let response = verdict_of(action).assemble(Some(text("before\n")));
    assert_eq!(response.error, Some(text("step budget exceeded")));
    assert_eq!(response.result, None);
    assert_eq!(response.output, Some(text("before")));
    assert_eq!(response.diagnostics_output, Some(text("error: halted")));
    assert_eq!(
        response.diagnostics,
        vec![WasmDiagnostic {
            kind: WasmDiagnosticKind::Error,
            start: at(2, 4),
            end: at(2, 11),
            message: text("step budget exceeded"),
        }]
    );
}

#[test]
fn failures_are_told_apart_by_the_runtime_message() {
    assert_eq!(failure_kind(BUDGET_TEXT), FailureKind::BudgetExceeded);
    assert_eq!(failure_kind("Halted for unexpected reason `yielded`"), FailureKind::Runtime);
    assert_eq!(failure_kind("division by zero"), FailureKind::Runtime);
    assert_eq!(failure_kind(""), FailureKind::Runtime);
}

#[test]
fn a_runtime_error_without_a_place_has_no_diagnostic() {
    let p = running(SOURCE, request(true, forty_one()));
    let failure = RuntimeFailure::new(text("type mismatch"), b"error: type mismatch".to_vec(), None);
    let (_, action) = p.step(Event::Failed { failure });
    let response = verdict_of(action).assemble(Some(text("partial  ")));
    assert_eq!(response.error, Some(text("type mismatch")));
    assert!(response.diagnostics.is_empty());
    assert_eq!(response.output, Some(text("partial")));
    assert_eq!(response.diagnostics_output, Some(text("error: type mismatch")));
}

#[test]
fn a_runtime_error_with_a_place_is_a_diagnostic() {
    let p = running(SOURCE, request(true, forty_one()));
    let failure = RuntimeFailure::new(
        text("type mismatch"),
        vec![],
        Some(Location { source_id: 0, span: Span { start: 21, end: 26 } }),
    );
    let (_, action) = p.step(Event::Failed { failure });
    let response = verdict_of(action).assemble(None);
    assert_eq!(
        response.diagnostics,
        vec![WasmDiagnostic {
            kind: WasmDiagnosticKind::Error,
            start: at(1, 4),
            end: at(1, 9),
            message: text("type mismatch"),
        }]
    );
    let p = running(SOURCE, request(true, forty_one()));
    let elsewhere = RuntimeFailure::new(
        text("type mismatch"),
        vec![],
        Some(Location { source_id: 3, span: Span { start: 21, end: 26 } }),
    );
    let (_, action) = p.step(Event::Failed { failure: elsewhere });
    assert!(verdict_of(action).assemble(None).diagnostics.is_empty());
}

#[test]
fn instructions_are_kept_whatever_the_outcome() {
    let mut r = request(true, forty_one());
    r.config.instructions = true;
    let (p, _) = Pipeline::start(text(SOURCE), String::new(), &host_params(), r);
    let (p, _) = p.step(Event::ContextReady);
    let (p, _) = p.step(Event::Compiled {
        error: None,
        reports: vec![],
        emitted: vec![],
        instructions: Some(b"fn main:\n  0000 = add\n".to_vec()),
    });
    assert_eq!(p.instructions, Some(text("fn main:\n  0000 = add")));
    let (p, _) = p.step(Event::Loaded);
    let failure = RuntimeFailure::new(text("boom"), vec![], None);
    let (_, action) = p.step(Event::Failed { failure });
    let response = verdict_of(action).assemble(None);
    assert_eq!(response.instructions, Some(text("fn main:\n  0000 = add")));
    assert_eq!(response.error, Some(text("boom")));
}

#[test]
fn instructions_that_are_no_text_end_the_request() {
    let mut r = request(true, forty_one());
    r.config.instructions = true;
    let (p, _) = Pipeline::start(text(SOURCE), String::new(), &host_params(), r);
    let (p, _) = p.step(Event::ContextReady);
    let (p, action) = p.step(Event::Compiled {
        error: None,
        reports: vec![],
        emitted: vec![],
        instructions: Some(vec![0xff]),
    });
    assert_eq!(p.stage, Stage::Done);
    let response = verdict_of(action).assemble(None);
    assert_eq!(response.error, Some(text("converting instructions to UTF-8")));
}

#[test]
fn an_event_out_of_turn_ends_the_request() {
    let (p, _) =
        Pipeline::start(text(SOURCE), String::new(), &host_params(), request(true, forty_one()));
    let (p, action) = p.step(Event::Loaded);
    assert_eq!(p.stage, Stage::Done);
    assert_eq!(
        verdict_of(action).assemble(None).error,
        Some(text("unexpected event"))
    );
    let (p, action) = p.step(Event::ContextReady);
    assert_eq!(p.stage, Stage::Done);
    assert_eq!(
        verdict_of(action).assemble(None).error,
        Some(text("unexpected event"))
    );
}

#[test]
fn responses_are_assembled_from_their_parts() {
    let ok = WasmCompileResult::output(
        Some(text("printed\n")),
        text("42"),
        Some(text("report")),
        vec![],
        Some(text("dump")),
    );
    assert_eq!(ok.error, None);
    assert_eq!(ok.result, Some(text("42")));
    assert_eq!(ok.output, Some(text("printed")));
    assert_eq!(ok.diagnostics_output, Some(text("report")));
    assert_eq!(ok.instructions, Some(text("dump")));
    let bad = WasmCompileResult::from_error(None, text("boom"), None, vec![], None);
    assert_eq!(bad.error, Some(text("boom")));
    assert_eq!(bad.result, None);
    assert_eq!(bad.output, None);
}

#[test]
fn the_context_is_built_from_fixed_modules() {
    let base = vec![
        ModuleInstall { module: ContextModule::CaptureIo, stdio: false },
        ModuleInstall { module: ContextModule::Capabilities, stdio: false },
        ModuleInstall { module: ContextModule::Http, stdio: true },
        ModuleInstall { module: ContextModule::Json, stdio: true },
        ModuleInstall { module: ContextModule::Toml, stdio: false },
        ModuleInstall { module: ContextModule::Rand, stdio: false },
    ];
    assert_eq!(setup_context(false), base);
    let mut wide = base;
    wide.push(ModuleInstall { module: ContextModule::Experiments, stdio: false });
    assert_eq!(setup_context(true), wide);
}
