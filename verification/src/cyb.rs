use vstd::prelude::*;
use vstd::string::StringExecFns;
use crate::bridge::FailurePolicy;
use crate::codec::{spec_to_host, spec_to_script, ConversionError, ConversionFault};
use crate::helpers::map_to_rune_value;
use crate::json::value_to_json;
use crate::text::same_text;
use crate::setup::{SetupError, SetupFault};
use crate::value::{
    host_models, lemma_host_models, spec_get, HostModel, HostNumber, HostValue, ScriptModel,
    ScriptValue,
};

verus! {

/// A host operation that a script can call by name.
#[derive(Clone, Copy, Debug, PartialEq, Eq, Structural)]
pub enum Capability {
    /// Text search by query.
    Search,
    /// Text search by semantic embedding, with a result count.
    SearchByEmbedding,
    /// Content retrieval by content address.
    GetTextFromStorage,
    /// Passport lookup by nickname.
    GetPassportByNickname,
    /// Retrieval and evaluation of a stored script.
    EvalScriptFromStorage,
    /// The graph links that leave a content address.
    GetLinksFrom,
    /// The graph links that arrive at a content address.
    GetLinksTo,
    /// A prompt to a language model.
    PromptLlm,
    /// Invocation of a registered callback by correlation id.
    InvokeCallback,
    /// Diagnostic text logging.
    Log,
    /// Creation of a graph link between two content addresses.
    Link,
    /// Publication of new content to the content-addressed store.
    PublishContent,
}

impl Capability {
    /// The name under which scripts call the capability.
    pub open spec fn spec_name(self) -> Seq<char> {
        match self {
            Capability::Search => "search"@,
            Capability::SearchByEmbedding => "searchByEmbedding"@,
            Capability::GetTextFromStorage => "getTextFromStorage"@,
            Capability::GetPassportByNickname => "getPassportByNickname"@,
            Capability::EvalScriptFromStorage => "evalScriptFromStorage"@,
            Capability::GetLinksFrom => "getLinksFrom"@,
            Capability::GetLinksTo => "getLinksTo"@,
            Capability::PromptLlm => "promptLLM"@,
            Capability::InvokeCallback => "invokeCallback"@,
            Capability::Log => "log"@,
            Capability::Link => "link"@,
            Capability::PublishContent => "publishContent"@,
        }
    }

    /// Whether the capability changes anything on the host side. A mutating
    /// capability is exposed only to scripts that do not run read-only.
    pub open spec fn spec_mutating(self) -> bool {
        self == Capability::Link || self == Capability::PublishContent
    }

    /// The name under which scripts call the capability.
    pub fn name(self) -> (r: &'static str)
        ensures
            r@ == self.spec_name(),
    {
        match self {
            Capability::Search => "search",
            Capability::SearchByEmbedding => "searchByEmbedding",
            Capability::GetTextFromStorage => "getTextFromStorage",
            Capability::GetPassportByNickname => "getPassportByNickname",
            Capability::EvalScriptFromStorage => "evalScriptFromStorage",
            Capability::GetLinksFrom => "getLinksFrom",
            Capability::GetLinksTo => "getLinksTo",
            Capability::PromptLlm => "promptLLM",
            Capability::InvokeCallback => "invokeCallback",
            Capability::Log => "log",
            Capability::Link => "link",
            Capability::PublishContent => "publishContent",
        }
    }

    /// The number of arguments that a script passes to the capability.
    pub open spec fn spec_arity(self) -> nat {
        match self {
            Capability::SearchByEmbedding | Capability::InvokeCallback | Capability::Link => 2,
            Capability::EvalScriptFromStorage | Capability::PromptLlm => 3,
            _ => 1,
        }
    }

    /// Whether a call suspends the script until a host operation settles.
    /// Only logging returns at once.
    pub open spec fn spec_asynchronous(self) -> bool {
        self != Capability::Log
    }

    /// What a rejected host operation means to the calling script.
    ///
    /// Lookups that may find nothing degrade to the unit value: both
    /// searches, the passport lookup and the two link queries. Retrieval,
    /// evaluation and prompting, callbacks and everything that mutates abort
    /// the script. Logging never settles, so its entry is never consulted.
    pub open spec fn spec_on_failure(self) -> FailurePolicy {
        match self {
            Capability::Search
            | Capability::SearchByEmbedding
            | Capability::GetPassportByNickname
            | Capability::GetLinksFrom
            | Capability::GetLinksTo => FailurePolicy::Degrade,
            _ => FailurePolicy::Fatal,
        }
    }

    /// The number of arguments that a script passes to the capability.
    pub fn arity(self) -> (r: usize)
        ensures
            r == self.spec_arity(),
    {
        match self {
            Capability::SearchByEmbedding | Capability::InvokeCallback | Capability::Link => 2,
            Capability::EvalScriptFromStorage | Capability::PromptLlm => 3,
            _ => 1,
        }
    }

    /// Whether a call suspends the script until a host operation settles.
    pub fn asynchronous(self) -> (r: bool)
        ensures
            r == self.spec_asynchronous(),
    {
        match self {
            Capability::Log => false,
            _ => true,
        }
    }

    /// What a rejected host operation means to the calling script.
    pub fn on_failure(self) -> (r: FailurePolicy)
        ensures
            r == self.spec_on_failure(),
    {
        match self {
            Capability::Search
            | Capability::SearchByEmbedding
            | Capability::GetPassportByNickname
            | Capability::GetLinksFrom
            | Capability::GetLinksTo => FailurePolicy::Degrade,
            _ => FailurePolicy::Fatal,
        }
    }

    /// Whether the capability changes anything on the host side.
    pub fn mutating(self) -> (r: bool)
        ensures
            r == self.spec_mutating(),
    {
        match self {
            Capability::Link | Capability::PublishContent => true,
            _ => false,
        }
    }
}

/// No two capabilities share a name.
pub proof fn lemma_names_distinct(a: Capability, b: Capability)
    ensures
        a.spec_name() == b.spec_name() <==> a == b,
{
    reveal_strlit("search");
    reveal_strlit("searchByEmbedding");
    reveal_strlit("getTextFromStorage");
    reveal_strlit("getPassportByNickname");
    reveal_strlit("evalScriptFromStorage");
    reveal_strlit("getLinksFrom");
    reveal_strlit("getLinksTo");
    reveal_strlit("promptLLM");
    reveal_strlit("invokeCallback");
    reveal_strlit("log");
    reveal_strlit("link");
    reveal_strlit("publishContent");
    if a != b && a.spec_name() == b.spec_name() {
        assert(a.spec_name().len() == b.spec_name().len());
        assert(a.spec_name()[0] == b.spec_name()[0]);
        assert(a.spec_name()[1] == b.spec_name()[1]);
        assert(a.spec_name()[2] == b.spec_name()[2]);
        assert(false);
    }
}

/// The capabilities in the order in which a registry takes them: the ten
/// that every script sees, then the two that mutate.
pub open spec fn capability_order() -> Seq<Capability> {
    seq![
        Capability::GetTextFromStorage,
        Capability::InvokeCallback,
        Capability::Log,
        Capability::Search,
        Capability::GetPassportByNickname,
        Capability::EvalScriptFromStorage,
        Capability::PromptLlm,
        Capability::SearchByEmbedding,
        Capability::GetLinksFrom,
        Capability::GetLinksTo,
        Capability::Link,
        Capability::PublishContent,
    ]
}

/// The table of all capabilities, in registration order.
pub fn capability_table() -> (r: Vec<Capability>)
    ensures
        r@ == capability_order(),
{
    let mut table: Vec<Capability> = Vec::new();
    table.push(Capability::GetTextFromStorage);
    table.push(Capability::InvokeCallback);
    table.push(Capability::Log);
    table.push(Capability::Search);
    table.push(Capability::GetPassportByNickname);
    table.push(Capability::EvalScriptFromStorage);
    table.push(Capability::PromptLlm);
    table.push(Capability::SearchByEmbedding);
    table.push(Capability::GetLinksFrom);
    table.push(Capability::GetLinksTo);
    table.push(Capability::Link);
    table.push(Capability::PublishContent);
    assert(table@ =~= capability_order());
    table
}

/// Whether a script sees the capability: always, unless the capability
/// mutates and the script runs read-only.
pub open spec fn exposed(c: Capability, read_only: bool) -> bool {
    !(read_only && c.spec_mutating())
}

/// The capabilities of `order` that a script sees, in the same order.
pub open spec fn exposed_of(order: Seq<Capability>, read_only: bool) -> Seq<Capability>
    decreases order.len(),
{
    if order.len() == 0 {
        Seq::empty()
    } else if exposed(order.last(), read_only) {
        exposed_of(order.drop_last(), read_only).push(order.last())
    } else {
        exposed_of(order.drop_last(), read_only)
    }
}

/// What one request exposes to its script: two constants and the callable
/// capabilities, none of them twice.
#[derive(Debug)]
pub struct Registry {
    /// The application context, as the script sees it.
    pub context: ScriptValue,
    /// The correlation id, as the script sees it.
    pub ref_id: ScriptValue,
    /// The correlation id in its host form, handed on with prompts.
    pub js_ref_id: HostValue,
    /// The capabilities that the script can call, in registration order.
    pub functions: Vec<Capability>,
}

/// The mathematical content of a [`Registry`].
pub struct RegistryModel {
    pub context: ScriptModel,
    pub ref_id: ScriptModel,
    pub js_ref_id: HostModel,
    pub functions: Seq<Capability>,
}

impl View for Registry {
    type V = RegistryModel;

    open spec fn view(&self) -> RegistryModel {
        RegistryModel {
            context: self.context@,
            ref_id: self.ref_id@,
            js_ref_id: self.js_ref_id@,
            functions: self.functions@,
        }
    }
}

/// Whether `functions` holds a capability with the given name.
pub open spec fn has_name(functions: Seq<Capability>, name: Seq<char>) -> bool {
    exists|i: int| 0 <= i < functions.len() && (#[trigger] functions[i]).spec_name() == name
}

/// Whether no capability occurs twice in `functions`, so that names are unique.
pub open spec fn distinct(functions: Seq<Capability>) -> bool {
    forall|i: int, j: int| 0 <= i < j < functions.len() ==> functions[i] != functions[j]
}

/// A capability whose name is not taken yet can join without a clash.
pub proof fn lemma_push_keeps_distinct(functions: Seq<Capability>, c: Capability)
    requires
        !has_name(functions, c.spec_name()),
        distinct(functions),
    ensures
        distinct(functions.push(c)),
{
    assert forall|i: int, j: int| 0 <= i < j < functions.push(c).len() implies functions.push(
        c,
    )[i] != functions.push(c)[j] by {
        if j == functions.len() {
            assert(functions[i].spec_name() != c.spec_name());
        }
    }
}

impl Registry {
    /// The registered capability with the given name, if there is one.
    pub fn lookup(&self, name: &str) -> (r: Option<Capability>)
        ensures
            match r {
                Some(c) => self.functions@.contains(c) && c.spec_name() == name@,
                None => !has_name(self.functions@, name@),
            },
    {
        let mut i: usize = 0;
        while i < self.functions.len()
            invariant
                i <= self.functions.len(),
                forall|j: int| 0 <= j < i ==> (#[trigger] self.functions@[j]).spec_name() != name@,
            decreases self.functions.len() - i,
        {
            let c = self.functions[i];
            if same_text(c.name(), name) {
                return Some(c);
            }
            i += 1;
        }
        None
    }

    /// Registers one more capability. A name that is already taken is
    /// refused, and the registry stays as it was.
    pub fn register(&mut self, c: Capability) -> (r: Result<(), SetupError>)
        ensures
            match r {
                Ok(()) => !has_name(old(self).functions@, c.spec_name()) && final(self)@
                    == (RegistryModel { functions: old(self).functions@.push(c), ..old(self)@ })
                    && (distinct(old(self).functions@) ==> distinct(final(self).functions@)),
                Err(e) => has_name(old(self).functions@, c.spec_name()) && final(self)@ == old(
                    self,
                )@ && e@ == (SetupFault::NameCollision { name: c.spec_name() }),
            },
    {
        let name = c.name();
        match self.lookup(name) {
            Some(_) => Err(SetupError::NameCollision { name: String::from_str(name) }),
            None => {
                proof {
                    if distinct(self.functions@) {
                        lemma_push_keeps_distinct(self.functions@, c);
                    }
                }
                self.functions.push(c);
                Ok(())
            },
        }
    }

    /// The number of capabilities that the script can call.
    pub fn len(&self) -> (r: usize)
        ensures
            r == self.functions@.len(),
    {
        self.functions.len()
    }
}

/// Each capability that a script sees comes from the order it was taken from.
pub proof fn lemma_exposed_of_members(order: Seq<Capability>, read_only: bool)
    ensures
        forall|k: int|
            0 <= k < exposed_of(order, read_only).len() ==> exists|j: int|
                0 <= j < order.len() && order[j] == #[trigger] exposed_of(order, read_only)[k],
        forall|j: int|
            0 <= j < order.len() && exposed(#[trigger] order[j], read_only) ==> exposed_of(
                order,
                read_only,
            ).contains(order[j]),
        forall|k: int|
            0 <= k < exposed_of(order, read_only).len() ==> exposed(
                #[trigger] exposed_of(order, read_only)[k],
                read_only,
            ),
    decreases order.len(),
{
    if order.len() > 0 {
        let rest = order.drop_last();
        let shown = exposed_of(order, read_only);
        let shown_rest = exposed_of(rest, read_only);
        lemma_exposed_of_members(rest, read_only);
        assert forall|k: int| 0 <= k < shown.len() implies exists|j: int|
            0 <= j < order.len() && order[j] == #[trigger] shown[k] by {
            if k < shown_rest.len() {
                let j = choose|j: int| 0 <= j < rest.len() && rest[j] == shown_rest[k];
                assert(order[j] == shown[k]);
            } else {
                assert(order[order.len() - 1] == shown[k]);
            }
        }
        assert forall|j: int|
            0 <= j < order.len() && exposed(#[trigger] order[j], read_only) implies shown.contains(
            order[j],
        ) by {
            if j < rest.len() {
                assert(rest[j] == order[j]);
                let k = choose|k: int| 0 <= k < shown_rest.len() && shown_rest[k] == rest[j];
                assert(shown[k] == order[j]);
            } else {
                assert(shown[shown.len() - 1] == order[j]);
            }
        }
    }
}

/// No capability occurs twice in the registration order.
pub proof fn lemma_order_distinct()
    ensures
        distinct(capability_order()),
        capability_order().len() == 12,
{
}

/// What building a registry gives: the two constants converted from the
/// `app` and `refId` fields of the host parameters, the correlation id in
/// its host form, and the capabilities that the script sees. A missing
/// field is reported by name, `app` first.
pub open spec fn spec_module(params: HostModel, read_only: bool) -> Result<
    RegistryModel,
    SetupFault,
> {
    match spec_get(params, "app"@) {
        None => Err(SetupFault::MissingParameter { name: "app"@ }),
        Some(app) => match spec_get(params, "refId"@) {
            None => Err(SetupFault::MissingParameter { name: "refId"@ }),
            Some(id) => Ok(
                RegistryModel {
                    context: spec_to_script(app),
                    ref_id: spec_to_script(id),
                    js_ref_id: id,
                    functions: exposed_of(capability_order(), read_only),
                },
            ),
        },
    }
}

/// Builds the registry of one request from the host parameters.
pub fn module(params: &HostValue, read_only: bool) -> (r: Result<Registry, SetupError>)
    ensures
        match r {
            Ok(registry) => spec_module(params@, read_only) == Ok::<RegistryModel, SetupFault>(
                registry@,
            ),
            Err(e) => spec_module(params@, read_only) == Err::<RegistryModel, SetupFault>(e@),
        },
        r matches Ok(registry) ==> distinct(registry.functions@),
{
    proof {
        lemma_read_only_gating();
    }
    let app = match params.get("app") {
        Some(app) => app,
        None => {
            return Err(SetupError::MissingParameter { name: String::from_str("app") });
        },
    };
    let js_ref_id = match params.get("refId") {
        Some(id) => id,
        None => {
            return Err(SetupError::MissingParameter { name: String::from_str("refId") });
        },
    };
    let mut registry = Registry {
        context: map_to_rune_value(app),
        ref_id: map_to_rune_value(js_ref_id),
        js_ref_id: js_ref_id.clone(),
        functions: Vec::new(),
    };
    let table = capability_table();
    let ghost start = registry@;
    let mut i: usize = 0;
    assert(table@.take(0) =~= Seq::<Capability>::empty());
    while i < table.len()
        invariant
            i <= table.len(),
            table@ == capability_order(),
            start.functions == Seq::<Capability>::empty(),
            registry@ == (RegistryModel {
                functions: exposed_of(table@.take(i as int), read_only),
                ..start
            }),
        decreases table.len() - i,
    {
        let c = table[i];
        let ghost seen = table@.take(i as int);
        assert(table@.take(i + 1).drop_last() =~= seen);
        assert(table@.take(i + 1).last() == c);
        if !(read_only && c.mutating()) {
            match registry.register(c) {
                Ok(()) => {},
                Err(e) => {
                    proof {
                        let shown = exposed_of(seen, read_only);
                        lemma_exposed_of_members(seen, read_only);
                        lemma_order_distinct();
                        let k = choose|k: int|
                            0 <= k < shown.len() && (#[trigger] shown[k]).spec_name()
                                == c.spec_name();
                        lemma_names_distinct(shown[k], c);
                        let j = choose|j: int| 0 <= j < seen.len() && seen[j] == shown[k];
                        assert(table@[j] == table@[i as int]);
                    }
                    return Err(e);
                },
            }
        }
        i += 1;
    }
    assert(table@.take(table@.len() as int) =~= table@);
    Ok(registry)
}

/// Read-only gating: a read-only script sees exactly the capabilities that
/// do not mutate, which are two fewer than otherwise, and looking up `link`
/// or `publishContent` finds nothing; a script that may mutate sees all.
pub proof fn lemma_read_only_gating()
    ensures
        exposed_of(capability_order(), true).len() + 2 == exposed_of(
            capability_order(),
            false,
        ).len(),
        exposed_of(capability_order(), false) == capability_order(),
        !has_name(exposed_of(capability_order(), true), "link"@),
        !has_name(exposed_of(capability_order(), true), "publishContent"@),
        forall|c: Capability|
            exposed_of(capability_order(), true).contains(c) <==> !c.spec_mutating(),
        forall|c: Capability| exposed_of(capability_order(), false).contains(c),
        distinct(exposed_of(capability_order(), true)),
        distinct(exposed_of(capability_order(), false)),
{
    let order = capability_order();
    let ten = order.take(10);
    reveal_with_fuel(exposed_of, 13);
    assert(order.drop_last() =~= order.take(11));
    assert(order.take(11).drop_last() =~= ten);
    lemma_exposed_all(ten, true);
    lemma_exposed_all(order, false);
    assert(exposed_of(order, true) == ten);
    assert forall|c: Capability| ten.contains(c) <==> !c.spec_mutating() by {
        if !c.spec_mutating() {
            let j = choose|j: int| 0 <= j < 12 && order[j] == c;
            assert(ten[j] == c);
        }
    }
    assert forall|c: Capability| order.contains(c) by {
        let j = choose|j: int| 0 <= j < 12 && order[j] == c;
    }
    if has_name(ten, "link"@) {
        let k = choose|k: int| 0 <= k < ten.len() && (#[trigger] ten[k]).spec_name() == "link"@;
        lemma_names_distinct(ten[k], Capability::Link);
    }
    if has_name(ten, "publishContent"@) {
        let k = choose|k: int|
            0 <= k < ten.len() && (#[trigger] ten[k]).spec_name() == "publishContent"@;
        lemma_names_distinct(ten[k], Capability::PublishContent);
    }
}

/// Where a script sees every capability of `order`, it sees `order` itself.
pub proof fn lemma_exposed_all(order: Seq<Capability>, read_only: bool)
    requires
        forall|j: int| 0 <= j < order.len() ==> exposed(#[trigger] order[j], read_only),
    ensures
        exposed_of(order, read_only) == order,
    decreases order.len(),
{
    if order.len() > 0 {
        lemma_exposed_all(order.drop_last(), read_only);
        assert(order.drop_last().push(order.last()) =~= order);
    }
}

/// One call of a host operation, ready to be carried out: the capability
/// and its arguments in their wire form.
#[derive(Debug, PartialEq, Eq)]
pub struct HostCall {
    pub capability: Capability,
    pub args: Vec<HostValue>,
}

/// The mathematical content of a [`HostCall`].
pub struct HostCallModel {
    pub capability: Capability,
    pub args: Seq<HostModel>,
}

impl View for HostCall {
    type V = HostCallModel;

    open spec fn view(&self) -> HostCallModel {
        HostCallModel { capability: self.capability, args: host_models(self.args@) }
    }
}

/// The text `s` as a host value.
fn text_value(s: &str) -> (r: HostValue)
    ensures
        r@ == HostModel::String(s@),
{
    HostValue::String(String::from_str(s))
}

/// A call with the given arguments, in order.
fn call_with(capability: Capability, args: Vec<HostValue>) -> (r: HostCall)
    ensures
        r.capability == capability,
        r@.args.len() == args@.len(),
        forall|i: int| 0 <= i < args@.len() ==> r@.args[i] == args@[i]@,
{
    proof {
        lemma_host_models(args@);
    }
    HostCall { capability, args }
}

/// A call of a capability that takes one text.
fn call_with_text(capability: Capability, text: &str) -> (r: HostCall)
    ensures
        r@ == (HostCallModel { capability, args: seq![HostModel::String(text@)] }),
{
    let mut args: Vec<HostValue> = Vec::new();
    args.push(text_value(text));
    let call = call_with(capability, args);
    assert(call@.args =~= seq![HostModel::String(text@)]);
    call
}

/// The call that searches text by a query.
pub fn cyber_search(query: &str) -> (r: HostCall)
    ensures
        r@ == (HostCallModel {
            capability: Capability::Search,
            args: seq![HostModel::String(query@)],
        }),
{
    call_with_text(Capability::Search, query)
}

/// The call that retrieves content by its content address.
pub fn get_text_from_ipfs(cid: &str) -> (r: HostCall)
    ensures
        r@ == (HostCallModel {
            capability: Capability::GetTextFromStorage,
            args: seq![HostModel::String(cid@)],
        }),
{
    call_with_text(Capability::GetTextFromStorage, cid)
}

/// The call that searches text by semantic embedding, for `count` results.
pub fn search_by_embedding(text: &str, count: usize) -> (r: HostCall)
    ensures
        r@ == (HostCallModel {
            capability: Capability::SearchByEmbedding,
            args: seq![
                HostModel::String(text@),
                HostModel::Number(HostNumber::PosInt(count as u64)),
            ],
        }),
{
    let mut args: Vec<HostValue> = Vec::new();
    args.push(text_value(text));
    args.push(HostValue::Number(HostNumber::PosInt(count as u64)));
    let call = call_with(Capability::SearchByEmbedding, args);
    assert(call@.args =~= seq![
        HostModel::String(text@),
        HostModel::Number(HostNumber::PosInt(count as u64)),
    ]);
    call
}

/// The call that links one content address to another.
pub fn cyber_link(from_cid: &str, to_cid: &str) -> (r: HostCall)
    ensures
        r@ == (HostCallModel {
            capability: Capability::Link,
            args: seq![HostModel::String(from_cid@), HostModel::String(to_cid@)],
        }),
{
    let mut args: Vec<HostValue> = Vec::new();
    args.push(text_value(from_cid));
    args.push(text_value(to_cid));
    let call = call_with(Capability::Link, args);
    assert(call@.args =~= seq![HostModel::String(from_cid@), HostModel::String(to_cid@)]);
    call
}

/// The call that looks a passport up by nickname.
pub fn get_passport_by_nickname(nickname: &str) -> (r: HostCall)
    ensures
        r@ == (HostCallModel {
            capability: Capability::GetPassportByNickname,
            args: seq![HostModel::String(nickname@)],
        }),
{
    call_with_text(Capability::GetPassportByNickname, nickname)
}

/// The call that evaluates a function of a stored script, or the reason why
/// the parameters cannot be handed to the host.
pub fn eval_script_from_ipfs(cid: &str, func_name: &str, params: ScriptValue) -> (r: Result<
    HostCall,
    ConversionError,
>)
    ensures
        match r {
            Ok(call) => spec_to_host(params@) is Ok && call@ == (HostCallModel {
                capability: Capability::EvalScriptFromStorage,
                args: seq![
                    HostModel::String(cid@),
                    HostModel::String(func_name@),
                    spec_to_host(params@)->Ok_0,
                ],
            }),
            Err(e) => spec_to_host(params@) == Err::<HostModel, ConversionFault>(e@),
        },
{
    let js_value = match value_to_json(&params) {
        Ok(v) => v,
        Err(e) => {
            return Err(e);
        },
    };
    let mut args: Vec<HostValue> = Vec::new();
    args.push(text_value(cid));
    args.push(text_value(func_name));
    args.push(js_value);
    let call = call_with(Capability::EvalScriptFromStorage, args);
    assert(call@.args =~= seq![
        HostModel::String(cid@),
        HostModel::String(func_name@),
        spec_to_host(params@)->Ok_0,
    ]);
    Ok(call)
}

/// The call that publishes new content.
pub fn add_content_to_ipfs(content: &str) -> (r: HostCall)
    ensures
        r@ == (HostCallModel {
            capability: Capability::PublishContent,
            args: seq![HostModel::String(content@)],
        }),
{
    call_with_text(Capability::PublishContent, content)
}

/// The call that prompts a language model, with the correlation id of the
/// request as its last argument, or the reason why the parameters cannot be
/// handed to the host.
pub fn open_ai_prompt(prompt: &str, api_key: &str, params: ScriptValue, ref_id: HostValue) -> (r:
    Result<HostCall, ConversionError>)
    ensures
        match r {
            Ok(call) => spec_to_host(params@) is Ok && call@ == (HostCallModel {
                capability: Capability::PromptLlm,
                args: seq![
                    HostModel::String(prompt@),
                    HostModel::String(api_key@),
                    spec_to_host(params@)->Ok_0,
                    ref_id@,
                ],
            }),
            Err(e) => spec_to_host(params@) == Err::<HostModel, ConversionFault>(e@),
        },
{
    let js_value = match value_to_json(&params) {
        Ok(v) => v,
        Err(e) => {
            return Err(e);
        },
    };
    let mut args: Vec<HostValue> = Vec::new();
    args.push(text_value(prompt));
    args.push(text_value(api_key));
    args.push(js_value);
    args.push(ref_id);
    let call = call_with(Capability::PromptLlm, args);
    assert(call@.args =~= seq![
        HostModel::String(prompt@),
        HostModel::String(api_key@),
        spec_to_host(params@)->Ok_0,
        ref_id@,
    ]);
    Ok(call)
}

/// The call that asks for the links that leave a content address.
pub fn get_cyberlinks_from_cid(cid: &str) -> (r: HostCall)
    ensures
        r@ == (HostCallModel {
            capability: Capability::GetLinksFrom,
            args: seq![HostModel::String(cid@)],
        }),
{
    call_with_text(Capability::GetLinksFrom, cid)
}

/// The call that asks for the links that arrive at a content address.
pub fn get_cyberlinks_to_cid(cid: &str) -> (r: HostCall)
    ensures
        r@ == (HostCallModel {
            capability: Capability::GetLinksTo,
            args: seq![HostModel::String(cid@)],
        }),
{
    call_with_text(Capability::GetLinksTo, cid)
}

/// The call that invokes the callback registered under a correlation id, or
/// the reason why the payload cannot be handed to the host.
pub fn execute_callback(ref_id: &str, data: ScriptValue) -> (r: Result<HostCall, ConversionError>)
    ensures
        match r {
            Ok(call) => spec_to_host(data@) is Ok && call@ == (HostCallModel {
                capability: Capability::InvokeCallback,
                args: seq![HostModel::String(ref_id@), spec_to_host(data@)->Ok_0],
            }),
            Err(e) => spec_to_host(data@) == Err::<HostModel, ConversionFault>(e@),
        },
{
    let js_value = match value_to_json(&data) {
        Ok(v) => v,
        Err(e) => {
            return Err(e);
        },
    };
    let mut args: Vec<HostValue> = Vec::new();
    args.push(text_value(ref_id));
    args.push(js_value);
    let call = call_with(Capability::InvokeCallback, args);
    assert(call@.args =~= seq![HostModel::String(ref_id@), spec_to_host(data@)->Ok_0]);
    Ok(call)
}

/// The call that logs a diagnostic message.
pub fn log(message: &str) -> (r: HostCall)
    ensures
        r@ == (HostCallModel {
            capability: Capability::Log,
            args: seq![HostModel::String(message@)],
        }),
{
    call_with_text(Capability::Log, message)
}

} // verus!
