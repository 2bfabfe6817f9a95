use vstd::prelude::*;
use crate::text::same_text;

verus! {

/// A host number, kept in one of the three forms a JSON number can take.
///
/// `Float` holds the IEEE-754 binary64 bit pattern of the number.
#[derive(Clone, Copy, Debug, PartialEq, Eq, Structural)]
pub enum HostNumber {
    PosInt(u64),
    NegInt(i64),
    Float(u64),
}

/// A generic JSON-shaped value exchanged with the host environment.
///
/// An object keeps its entries in the order in which they were given.
#[derive(Debug, PartialEq, Eq)]
pub enum HostValue {
    Null,
    Bool(bool),
    Number(HostNumber),
    String(String),
    Array(Vec<HostValue>),
    Object(Vec<(String, HostValue)>),
}

/// The mathematical content of a [`HostValue`].
pub enum HostModel {
    Null,
    Bool(bool),
    Number(HostNumber),
    String(Seq<char>),
    Array(Seq<HostModel>),
    Object(Seq<(Seq<char>, HostModel)>),
}

/// A value as the embedded scripting runtime sees it.
///
/// `Float` holds the IEEE-754 binary64 bit pattern of the number. `Tuple`
/// keeps tuples of every arity, and `Opaque` stands for any runtime value
/// outside the other variants (a function, a future, a custom object),
/// remembered by the name of its type.
#[derive(Debug, PartialEq, Eq)]
pub enum ScriptValue {
    Unit,
    Bool(bool),
    Integer(i64),
    Float(u64),
    String(String),
    Vec(Vec<ScriptValue>),
    Object(Vec<(String, ScriptValue)>),
    Tuple(Vec<ScriptValue>),
    Opaque(String),
}

/// The mathematical content of a [`ScriptValue`].
pub enum ScriptModel {
    Unit,
    Bool(bool),
    Integer(i64),
    Float(u64),
    String(Seq<char>),
    Vec(Seq<ScriptModel>),
    Object(Seq<(Seq<char>, ScriptModel)>),
    Tuple(Seq<ScriptModel>),
    Opaque(Seq<char>),
}

/// The model of one host value.
pub open spec fn host_model(v: HostValue) -> HostModel
    decreases v,
{
    match v {
        HostValue::Null => HostModel::Null,
        HostValue::Bool(b) => HostModel::Bool(b),
        HostValue::Number(n) => HostModel::Number(n),
        HostValue::String(s) => HostModel::String(s@),
        HostValue::Array(items) => HostModel::Array(host_models(items@)),
        HostValue::Object(entries) => HostModel::Object(host_entry_models(entries@)),
    }
}

/// The models of a run of host values, element by element.
pub open spec fn host_models(items: Seq<HostValue>) -> Seq<HostModel>
    decreases items,
{
    if items.len() == 0 {
        Seq::empty()
    } else {
        host_models(items.drop_last()).push(host_model(items.last()))
    }
}

/// The models of a run of host object entries, entry by entry.
pub open spec fn host_entry_models(entries: Seq<(String, HostValue)>) -> Seq<
    (Seq<char>, HostModel),
>
    decreases entries,
{
    if entries.len() == 0 {
        Seq::empty()
    } else {
        host_entry_models(entries.drop_last()).push(
            (entries.last().0@, host_model(entries.last().1)),
        )
    }
}

/// The model of one script value.
pub open spec fn script_model(v: ScriptValue) -> ScriptModel
    decreases v,
{
    match v {
        ScriptValue::Unit => ScriptModel::Unit,
        ScriptValue::Bool(b) => ScriptModel::Bool(b),
        ScriptValue::Integer(i) => ScriptModel::Integer(i),
        ScriptValue::Float(bits) => ScriptModel::Float(bits),
        ScriptValue::String(s) => ScriptModel::String(s@),
        ScriptValue::Vec(items) => ScriptModel::Vec(script_models(items@)),
        ScriptValue::Object(entries) => ScriptModel::Object(script_entry_models(entries@)),
        ScriptValue::Tuple(items) => ScriptModel::Tuple(script_models(items@)),
        ScriptValue::Opaque(name) => ScriptModel::Opaque(name@),
    }
}

/// The models of a run of script values, element by element.
pub open spec fn script_models(items: Seq<ScriptValue>) -> Seq<ScriptModel>
    decreases items,
{
    if items.len() == 0 {
        Seq::empty()
    } else {
        script_models(items.drop_last()).push(script_model(items.last()))
    }
}

/// The models of a run of script object entries, entry by entry.
pub open spec fn script_entry_models(entries: Seq<(String, ScriptValue)>) -> Seq<
    (Seq<char>, ScriptModel),
>
    decreases entries,
{
    if entries.len() == 0 {
        Seq::empty()
    } else {
        script_entry_models(entries.drop_last()).push(
            (entries.last().0@, script_model(entries.last().1)),
        )
    }
}

impl View for HostValue {
    type V = HostModel;

    open spec fn view(&self) -> HostModel {
        host_model(*self)
    }
}

impl View for ScriptValue {
    type V = ScriptModel;

    open spec fn view(&self) -> ScriptModel {
        script_model(*self)
    }
}

/// `host_models` keeps the length and maps position by position.
pub proof fn lemma_host_models(items: Seq<HostValue>)
    ensures
        host_models(items).len() == items.len(),
        forall|i: int| 0 <= i < items.len() ==> #[trigger] host_models(items)[i] == items[i]@,
    decreases items.len(),
{
    if items.len() > 0 {
        lemma_host_models(items.drop_last());
    }
}

/// `host_entry_models` keeps the length and maps position by position.
pub proof fn lemma_host_entry_models(entries: Seq<(String, HostValue)>)
    ensures
        host_entry_models(entries).len() == entries.len(),
        forall|i: int|
            0 <= i < entries.len() ==> #[trigger] host_entry_models(entries)[i] == (
                entries[i].0@,
                entries[i].1@,
            ),
    decreases entries.len(),
{
    if entries.len() > 0 {
        lemma_host_entry_models(entries.drop_last());
    }
}

/// `script_models` keeps the length and maps position by position.
pub proof fn lemma_script_models(items: Seq<ScriptValue>)
    ensures
        script_models(items).len() == items.len(),
        forall|i: int| 0 <= i < items.len() ==> #[trigger] script_models(items)[i] == items[i]@,
    decreases items.len(),
{
    if items.len() > 0 {
        lemma_script_models(items.drop_last());
    }
}

/// `script_entry_models` keeps the length and maps position by position.
pub proof fn lemma_script_entry_models(entries: Seq<(String, ScriptValue)>)
    ensures
        script_entry_models(entries).len() == entries.len(),
        forall|i: int|
            0 <= i < entries.len() ==> #[trigger] script_entry_models(entries)[i] == (
                entries[i].0@,
                entries[i].1@,
            ),
    decreases entries.len(),
{
    if entries.len() > 0 {
        lemma_script_entry_models(entries.drop_last());
    }
}

/// A copy of each host value of `items`, in order.
pub fn clone_host_items(items: &Vec<HostValue>) -> (r: Vec<HostValue>)
    ensures
        host_models(r@) == host_models(items@),
    decreases items,
{
    let mut out: Vec<HostValue> = Vec::new();
    let mut i: usize = 0;
    while i < items.len()
        invariant
            i <= items.len(),
            out@.len() == i,
            forall|j: int| 0 <= j < i ==> (#[trigger] out@[j])@ == items@[j]@,
        decreases items.len() - i,
    {
        proof {
            vstd::std_specs::vec::axiom_vec_index_decreases(*items, i as int);
        }
        out.push(clone_host(&items[i]));
        i += 1;
    }
    proof {
        lemma_host_models(out@);
        lemma_host_models(items@);
        assert(host_models(out@) =~= host_models(items@));
    }
    out
}

/// A copy of each entry of a host object, in order.
pub fn clone_host_entries(entries: &Vec<(String, HostValue)>) -> (r: Vec<(String, HostValue)>)
    ensures
        host_entry_models(r@) == host_entry_models(entries@),
    decreases entries,
{
    let mut out: Vec<(String, HostValue)> = Vec::new();
    let mut i: usize = 0;
    while i < entries.len()
        invariant
            i <= entries.len(),
            out@.len() == i,
            forall|j: int|
                0 <= j < i ==> (#[trigger] out@[j]).1@ == entries@[j].1@ && out@[j].0@
                    == entries@[j].0@,
        decreases entries.len() - i,
    {
        proof {
            vstd::std_specs::vec::axiom_vec_index_decreases(*entries, i as int);
        }
        let entry = &entries[i];
        out.push((entry.0.clone(), clone_host(&entry.1)));
        i += 1;
    }
    proof {
        lemma_host_entry_models(out@);
        lemma_host_entry_models(entries@);
        assert(host_entry_models(out@) =~= host_entry_models(entries@));
    }
    out
}

/// A copy of a host value.
pub fn clone_host(v: &HostValue) -> (r: HostValue)
    ensures
        r@ == v@,
    decreases v,
{
    match v {
        HostValue::Null => HostValue::Null,
        HostValue::Bool(b) => HostValue::Bool(*b),
        HostValue::Number(n) => HostValue::Number(*n),
        HostValue::String(s) => HostValue::String(s.clone()),
        HostValue::Array(items) => HostValue::Array(clone_host_items(items)),
        HostValue::Object(entries) => HostValue::Object(clone_host_entries(entries)),
    }
}

impl Clone for HostValue {
    fn clone(&self) -> (r: Self)
        ensures
            r@ == self@,
    {
        clone_host(self)
    }
}

/// A copy of each script value of `items`, in order.
pub fn clone_script_items(items: &Vec<ScriptValue>) -> (r: Vec<ScriptValue>)
    ensures
        script_models(r@) == script_models(items@),
    decreases items,
{
    let mut out: Vec<ScriptValue> = Vec::new();
    let mut i: usize = 0;
    while i < items.len()
        invariant
            i <= items.len(),
            out@.len() == i,
            forall|j: int| 0 <= j < i ==> (#[trigger] out@[j])@ == items@[j]@,
        decreases items.len() - i,
    {
        proof {
            vstd::std_specs::vec::axiom_vec_index_decreases(*items, i as int);
        }
        out.push(clone_script(&items[i]));
        i += 1;
    }
    proof {
        lemma_script_models(out@);
        lemma_script_models(items@);
        assert(script_models(out@) =~= script_models(items@));
    }
    out
}

/// A copy of each entry of a script object, in order.
pub fn clone_script_entries(entries: &Vec<(String, ScriptValue)>) -> (r: Vec<
    (String, ScriptValue),
>)
    ensures
        script_entry_models(r@) == script_entry_models(entries@),
    decreases entries,
{
    let mut out: Vec<(String, ScriptValue)> = Vec::new();
    let mut i: usize = 0;
    while i < entries.len()
        invariant
            i <= entries.len(),
            out@.len() == i,
            forall|j: int|
                0 <= j < i ==> (#[trigger] out@[j]).1@ == entries@[j].1@ && out@[j].0@
                    == entries@[j].0@,
        decreases entries.len() - i,
    {
        proof {
            vstd::std_specs::vec::axiom_vec_index_decreases(*entries, i as int);
        }
        let entry = &entries[i];
        out.push((entry.0.clone(), clone_script(&entry.1)));
        i += 1;
    }
    proof {
        lemma_script_entry_models(out@);
        lemma_script_entry_models(entries@);
        assert(script_entry_models(out@) =~= script_entry_models(entries@));
    }
    out
}

/// A copy of a script value.
pub fn clone_script(v: &ScriptValue) -> (r: ScriptValue)
    ensures
        r@ == v@,
    decreases v,
{
    match v {
        ScriptValue::Unit => ScriptValue::Unit,
        ScriptValue::Bool(b) => ScriptValue::Bool(*b),
        ScriptValue::Integer(i) => ScriptValue::Integer(*i),
        ScriptValue::Float(bits) => ScriptValue::Float(*bits),
        ScriptValue::String(s) => ScriptValue::String(s.clone()),
        ScriptValue::Vec(items) => ScriptValue::Vec(clone_script_items(items)),
        ScriptValue::Object(entries) => ScriptValue::Object(clone_script_entries(entries)),
        ScriptValue::Tuple(items) => ScriptValue::Tuple(clone_script_items(items)),
        ScriptValue::Opaque(name) => ScriptValue::Opaque(name.clone()),
    }
}

impl Clone for ScriptValue {
    fn clone(&self) -> (r: Self)
        ensures
            r@ == self@,
    {
        clone_script(self)
    }
}

/// The value of the last entry with the given key, if there is one.
pub open spec fn entry_lookup(entries: Seq<(Seq<char>, HostModel)>, key: Seq<char>) -> Option<
    HostModel,
>
    decreases entries.len(),
{
    if entries.len() == 0 {
        None
    } else if entries.last().0 == key {
        Some(entries.last().1)
    } else {
        entry_lookup(entries.drop_last(), key)
    }
}

/// The field of a host object with the given key; no other host value has fields.
pub open spec fn spec_get(h: HostModel, key: Seq<char>) -> Option<HostModel> {
    match h {
        HostModel::Object(entries) => entry_lookup(entries, key),
        _ => None,
    }
}

impl HostValue {
    /// The field of an object with the given key. Where several entries
    /// have the key, the last one counts.
    pub fn get(&self, key: &str) -> (r: Option<&HostValue>)
        ensures
            match r {
                Some(found) => spec_get(self@, key@) == Some(found@),
                None => spec_get(self@, key@) is None,
            },
    {
        match self {
            HostValue::Object(entries) => {
                let mut i: usize = entries.len();
                proof {
                    lemma_host_entry_models(entries@);
                    assert(host_entry_models(entries@).take(i as int) =~= host_entry_models(
                        entries@,
                    ));
                }
                while i > 0
                    invariant
                        i <= entries.len(),
                        spec_get(self@, key@) == entry_lookup(host_entry_models(entries@), key@),
                        host_entry_models(entries@).len() == entries@.len(),
                        forall|j: int|
                            0 <= j < entries@.len() ==> #[trigger] host_entry_models(entries@)[j]
                                == (entries@[j].0@, entries@[j].1@),
                        entry_lookup(host_entry_models(entries@), key@) == entry_lookup(
                            host_entry_models(entries@).take(i as int),
                            key@,
                        ),
                    decreases i,
                {
                    i -= 1;
                    let ghost prefix = host_entry_models(entries@).take(i + 1);
                    assert(prefix.drop_last() =~= host_entry_models(entries@).take(i as int));
                    assert(prefix.last() == host_entry_models(entries@)[i as int]);
                    let entry = &entries[i];
                    if same_text(entry.0.as_str(), key) {
                        return Some(&entry.1);
                    }
                }
                None
            },
            _ => None,
        }
    }
}

} // verus!
