use cyb_runtime::bridge::{settle, FailurePolicy, HostCallError, Settlement};
use cyb_runtime::codec::ConversionError;
use cyb_runtime::cyb::{
    add_content_to_ipfs, capability_table, cyber_link, cyber_search, eval_script_from_ipfs,
    execute_callback, get_cyberlinks_from_cid, get_cyberlinks_to_cid, get_passport_by_nickname,
    get_text_from_ipfs, log, module, open_ai_prompt, search_by_embedding, Capability, HostCall,
};
use cyb_runtime::setup::SetupError;
use cyb_runtime::value::{HostNumber, HostValue, ScriptValue};

fn text(s: &str) -> String {
    String::from(s)
}

fn host_text(s: &str) -> HostValue {
    HostValue::String(text(s))
}

fn host_params() -> HostValue {
    HostValue::Object(vec![
        (
            text("app"),
            HostValue::Object(vec![
                (text("user"), host_text("alice")),
                (text("level"), HostValue::Number(HostNumber::PosInt(3))),
            ]),
        ),
        (text("refId"), host_text("req-17")),
    ])
}

#[test]
fn the_table_lists_every_capability_once() {
    let table = capability_table();
    assert_eq!(table.len(), 12);
    let mut i = 0;
    while i < table.len() {
        let mut j = i + 1;
        while j < table.len() {
            assert_ne!(table[i], table[j]);
            assert_ne!(table[i].name(), table[j].name());
            j += 1;
        }
        i += 1;
    }
}

#[test]
fn capabilities_have_their_script_names() {
    assert_eq!(Capability::Search.name(), "search");
    assert_eq!(Capability::SearchByEmbedding.name(), "searchByEmbedding");
    assert_eq!(Capability::GetTextFromStorage.name(), "getTextFromStorage");
    assert_eq!(Capability::GetPassportByNickname.name(), "getPassportByNickname");
    assert_eq!(Capability::EvalScriptFromStorage.name(), "evalScriptFromStorage");
    assert_eq!(Capability::GetLinksFrom.name(), "getLinksFrom");
    assert_eq!(Capability::GetLinksTo.name(), "getLinksTo");
    assert_eq!(Capability::PromptLlm.name(), "promptLLM");
    assert_eq!(Capability::InvokeCallback.name(), "invokeCallback");
    assert_eq!(Capability::Log.name(), "log");
    assert_eq!(Capability::Link.name(), "link");
    assert_eq!(Capability::PublishContent.name(), "publishContent");
}

#[test]
fn capabilities_have_their_arities() {
    assert_eq!(Capability::Search.arity(), 1);
    assert_eq!(Capability::SearchByEmbedding.arity(), 2);
    assert_eq!(Capability::EvalScriptFromStorage.arity(), 3);
    assert_eq!(Capability::PromptLlm.arity(), 3);
    assert_eq!(Capability::InvokeCallback.arity(), 2);
    assert_eq!(Capability::Link.arity(), 2);
    assert_eq!(Capability::PublishContent.arity(), 1);
    assert_eq!(Capability::Log.arity(), 1);
}

#[test]
fn only_logging_is_synchronous() {
    for c in capability_table() {
        assert_eq!(c.asynchronous(), c != Capability::Log);
    }
}

#[test]
fn only_link_and_publish_mutate() {
    for c in capability_table() {
        assert_eq!(c.mutating(), c == Capability::Link || c == Capability::PublishContent);
    }
}

#[test]
fn a_registry_that_may_mutate_holds_everything() {
    let registry = module(&host_params(), false).unwrap();
    assert_eq!(registry.len(), 12);
    assert_eq!(registry.functions, capability_table());
    for c in capability_table() {
        assert_eq!(registry.lookup(c.name()), Some(c));
    }
}

#[test]
fn a_read_only_registry_lacks_the_two_mutating_capabilities() {
    let open = module(&host_params(), false).unwrap();
    let closed = module(&host_params(), true).unwrap();
    assert_eq!(closed.len() + 2, open.len());
    assert_eq!(closed.len(), 10);
    assert_eq!(closed.lookup("link"), None);
    assert_eq!(closed.lookup("publishContent"), None);
    assert_eq!(open.lookup("link"), Some(Capability::Link));
    assert_eq!(open.lookup("publishContent"), Some(Capability::PublishContent));
    for c in capability_table() {
        if !c.mutating() {
            assert_eq!(closed.lookup(c.name()), Some(c));
        }
    }
}

#[test]
fn a_lookup_of_an_unknown_name_finds_nothing() {
    let registry = module(&host_params(), false).unwrap();
    assert_eq!(registry.lookup("cyber_link"), None);
    assert_eq!(registry.lookup(""), None);
    assert_eq!(registry.lookup("Search"), None);
}

#[test]
fn the_constants_come_from_the_host_parameters() {
    let registry = module(&host_params(), true).unwrap();
    assert_eq!(
        registry.context,
        ScriptValue::Object(vec![
            (text("user"), ScriptValue::String(text("alice"))),
            (text("level"), ScriptValue::Integer(3)),
        ])
    );
    assert_eq!(registry.ref_id, ScriptValue::String(text("req-17")));
    assert_eq!(registry.js_ref_id, host_text("req-17"));
}

#[test]
fn missing_host_parameters_are_a_setup_error() {
    let none = HostValue::Object(vec![]);
    assert_eq!(
        module(&none, false).unwrap_err(),
        SetupError::MissingParameter { name: text("app") }
    );
    let no_ref = HostValue::Object(vec![(text("app"), HostValue::Null)]);
    assert_eq!(
        module(&no_ref, false).unwrap_err(),
        SetupError::MissingParameter { name: text("refId") }
    );
    assert_eq!(
        module(&HostValue::Null, true).unwrap_err(),
        SetupError::MissingParameter { name: text("app") }
    );
    assert_eq!(
        SetupError::MissingParameter { name: text("app") }.message(),
        "missing host parameter: app"
    );
}

#[test]
fn a_name_is_registered_once() {
    let mut registry = module(&host_params(), true).unwrap();
    assert_eq!(registry.register(Capability::Link), Ok(()));
    assert_eq!(registry.len(), 11);
    assert_eq!(
        registry.register(Capability::Link),
        Err(SetupError::NameCollision { name: text("link") })
    );
    assert_eq!(
        registry.register(Capability::Search),
        Err(SetupError::NameCollision { name: text("search") })
    );
    assert_eq!(registry.len(), 11);
    assert_eq!(
        SetupError::NameCollision { name: text("link") }.message(),
        "capability registered twice: link"
    );
}

#[test]
fn calls_carry_their_arguments_in_wire_form() {
    assert_eq!(
        cyber_search("rust"),
        HostCall { capability: Capability::Search, args: vec![host_text("rust")] }
    );
    assert_eq!(
        get_text_from_ipfs("Qm1"),
        HostCall { capability: Capability::GetTextFromStorage, args: vec![host_text("Qm1")] }
    );
    assert_eq!(
        search_by_embedding("cats", 5),
        HostCall {
            capability: Capability::SearchByEmbedding,
            args: vec![host_text("cats"), HostValue::Number(HostNumber::PosInt(5))],
        }
    );
    assert_eq!(
        cyber_link("Qm1", "Qm2"),
        HostCall { capability: Capability::Link, args: vec![host_text("Qm1"), host_text("Qm2")] }
    );
    assert_eq!(
        get_passport_by_nickname("bob"),
        HostCall { capability: Capability::GetPassportByNickname, args: vec![host_text("bob")] }
    );
    assert_eq!(
        add_content_to_ipfs("hello"),
        HostCall { capability: Capability::PublishContent, args: vec![host_text("hello")] }
    );
    assert_eq!(
        get_cyberlinks_from_cid("Qm1"),
        HostCall { capability: Capability::GetLinksFrom, args: vec![host_text("Qm1")] }
    );
    assert_eq!(
        get_cyberlinks_to_cid("Qm1"),
        HostCall { capability: Capability::GetLinksTo, args: vec![host_text("Qm1")] }
    );
    assert_eq!(
        log("hi"),
        HostCall { capability: Capability::Log, args: vec![host_text("hi")] }
    );
}

#[test]
fn calls_with_script_values_convert_them() {
    let params = ScriptValue::Object(vec![(text("n"), ScriptValue::Integer(2))]);
    let wire = HostValue::Object(vec![(text("n"), HostValue::Number(HostNumber::PosInt(2)))]);
    assert_eq!(
        eval_script_from_ipfs("Qm1", "main", params.clone()),
        Ok(HostCall {
            capability: Capability::EvalScriptFromStorage,
            args: vec![host_text("Qm1"), host_text("main"), wire.clone()],
        })
    );
    assert_eq!(
        open_ai_prompt("say hi", "key", params.clone(), host_text("req-17")),
        Ok(HostCall {
            capability: Capability::PromptLlm,
            args: vec![host_text("say hi"), host_text("key"), wire.clone(), host_text("req-17")],
        })
    );
    assert_eq!(
        execute_callback("req-17", params),
        Ok(HostCall {
            capability: Capability::InvokeCallback,
            args: vec![host_text("req-17"), wire],
        })
    );
}

#[test]
fn calls_with_values_that_do_not_convert_fail() {
    let bad = ScriptValue::Vec(vec![ScriptValue::Opaque(text("Function"))]);
    let fault = ConversionError::UnhandledType { type_tag: text("Function") };
    assert_eq!(eval_script_from_ipfs("Qm1", "main", bad.clone()), Err(fault));
    let pair = ScriptValue::Tuple(vec![ScriptValue::Unit, ScriptValue::Unit]);
    assert_eq!(
        execute_callback("r", pair.clone()),
        Err(ConversionError::UnsupportedShape { arity: 2 })
    );
    assert_eq!(
        open_ai_prompt("p", "k", pair, HostValue::Null),
        Err(ConversionError::UnsupportedShape { arity: 2 })
    );
}

#[test]
fn each_capability_has_its_failure_policy() {
    let degrading = [
        Capability::Search,
        Capability::SearchByEmbedding,
        Capability::GetPassportByNickname,
        Capability::GetLinksFrom,
        Capability::GetLinksTo,
    ];
    for c in capability_table() {
        let expected = if degrading.contains(&c) {
            FailurePolicy::Degrade
        } else {
            FailurePolicy::Fatal
        };
        assert_eq!(c.on_failure(), expected, "{c:?}");
    }
}

#[test]
fn a_resolved_call_hands_the_converted_value_to_the_script() {
    let settlement = Settlement::Resolved(HostValue::Array(vec![
        host_text("a"),
        HostValue::Number(HostNumber::PosInt(1)),
    ]));
    let expected =
        ScriptValue::Vec(vec![ScriptValue::String(text("a")), ScriptValue::Integer(1)]);
    assert_eq!(settle(FailurePolicy::Fatal, &settlement), Ok(expected.clone()));
    assert_eq!(settle(FailurePolicy::Degrade, &settlement), Ok(expected.clone()));
    assert_eq!(cyb_runtime::json::execute_promise(&settlement), Ok(expected.clone()));
    assert_eq!(cyb_runtime::helpers::execute_promise(&settlement), Ok(expected));
}

#[test]
fn a_rejected_call_aborts_or_degrades() {
    let settlement = Settlement::Rejected(text("JsValue(\"network down\")"));
    let fatal = Err(HostCallError {
        message: text("cyb-runtime error: JsValue(\"network down\")"),
    });
    assert_eq!(settle(FailurePolicy::Fatal, &settlement), fatal);
    assert_eq!(cyb_runtime::json::execute_promise(&settlement), fatal);
    assert_eq!(settle(FailurePolicy::Degrade, &settlement), Ok(ScriptValue::Unit));
    assert_eq!(cyb_runtime::helpers::execute_promise(&settlement), Ok(ScriptValue::Unit));
    assert_eq!(
        settle(Capability::GetPassportByNickname.on_failure(), &settlement),
        Ok(ScriptValue::Unit)
    );
    assert_eq!(settle(Capability::EvalScriptFromStorage.on_failure(), &settlement), fatal);
}
