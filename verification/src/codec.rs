use vstd::prelude::*;
use vstd::string::StringExecFns;
use crate::text::{decimal, spec_decimal};
use crate::number::{is_finite_bits, large_integer_bits, lemma_large_integer_bits_finite};
use crate::value::{HostModel, HostNumber, HostValue, ScriptModel};

verus! {

/// Why a script value cannot cross to the host.
#[derive(Debug, PartialEq, Eq)]
pub enum ConversionError {
    /// A tuple with one or more fields; only the empty tuple converts.
    UnsupportedShape { arity: usize },
    /// A runtime value outside the convertible variants, by its type name.
    UnhandledType { type_tag: String },
    /// A host value that had to be an array and is not one.
    ExpectedArray,
}

/// The mathematical content of a [`ConversionError`].
pub enum ConversionFault {
    UnsupportedShape { arity: nat },
    UnhandledType { type_tag: Seq<char> },
    ExpectedArray,
}

impl View for ConversionError {
    type V = ConversionFault;

    open spec fn view(&self) -> ConversionFault {
        match self {
            ConversionError::UnsupportedShape { arity } => ConversionFault::UnsupportedShape {
                arity: *arity as nat,
            },
            ConversionError::UnhandledType { type_tag } => ConversionFault::UnhandledType {
                type_tag: type_tag@,
            },
            ConversionError::ExpectedArray => ConversionFault::ExpectedArray,
        }
    }
}

/// The text that reports a conversion fault.
pub open spec fn fault_message(fault: ConversionFault) -> Seq<char> {
    match fault {
        ConversionFault::UnsupportedShape { arity } => "Unhandled tuple length "@ + spec_decimal(
            arity,
        ),
        ConversionFault::UnhandledType { type_tag } => "Unhandled Value "@ + type_tag,
        ConversionFault::ExpectedArray => "Invalid JSON value. Expected an array."@,
    }
}

impl ConversionError {
    /// The text that reports the error: the arity of the tuple, or the name
    /// of the type, that did not convert.
    pub fn message(&self) -> (r: String)
        ensures
            r@ == fault_message(self@),
    {
        match self {
            ConversionError::UnsupportedShape { arity } => {
                let mut text = String::from_str("Unhandled tuple length ");
                text.append(decimal(*arity).as_str());
                text
            },
            ConversionError::UnhandledType { type_tag } => {
                let mut text = String::from_str("Unhandled Value ");
                text.append(type_tag.as_str());
                text
            },
            ConversionError::ExpectedArray => String::from_str(
                "Invalid JSON value. Expected an array.",
            ),
        }
    }
}

/// The mathematical content of the outcome of a conversion to the host.
pub open spec fn host_outcome(r: Result<HostValue, ConversionError>) -> Result<
    HostModel,
    ConversionFault,
> {
    match r {
        Ok(h) => Ok(h@),
        Err(e) => Err(e@),
    }
}

/// Whether a host number is in the form its value calls for: a negative
/// integer as `NegInt`, a float as the pattern of a finite number.
pub open spec fn number_wf(n: HostNumber) -> bool {
    match n {
        HostNumber::PosInt(_) => true,
        HostNumber::NegInt(i) => i < 0,
        HostNumber::Float(bits) => is_finite_bits(bits),
    }
}

/// Whether every number inside a host value is well formed.
pub open spec fn host_wf(h: HostModel) -> bool
    decreases h,
{
    match h {
        HostModel::Number(n) => number_wf(n),
        HostModel::Array(items) => forall|i: int|
            0 <= i < items.len() ==> host_wf(#[trigger] items[i]),
        HostModel::Object(entries) => forall|i: int|
            0 <= i < entries.len() ==> host_wf((#[trigger] entries[i]).1),
        _ => true,
    }
}

/// The script number for a host number: an integer where the host number is
/// an integer that fits `i64`, otherwise a float.
pub open spec fn number_to_script(n: HostNumber) -> ScriptModel {
    match n {
        HostNumber::PosInt(u) => if u <= i64::MAX as u64 {
            ScriptModel::Integer(u as i64)
        } else {
            ScriptModel::Float(large_integer_bits(u))
        },
        HostNumber::NegInt(i) => ScriptModel::Integer(i),
        HostNumber::Float(bits) => ScriptModel::Float(bits),
    }
}

/// The host number for a script integer.
pub open spec fn integer_to_host(i: i64) -> HostNumber {
    if i < 0 {
        HostNumber::NegInt(i)
    } else {
        HostNumber::PosInt(i as u64)
    }
}

/// The script value that a host value becomes.
pub open spec fn spec_to_script(h: HostModel) -> ScriptModel
    decreases h,
{
    match h {
        HostModel::Null => ScriptModel::Unit,
        HostModel::Bool(b) => ScriptModel::Bool(b),
        HostModel::Number(n) => number_to_script(n),
        HostModel::String(s) => ScriptModel::String(s),
        HostModel::Array(items) => ScriptModel::Vec(spec_to_script_seq(items)),
        HostModel::Object(entries) => ScriptModel::Object(spec_to_script_entries(entries)),
    }
}

/// `spec_to_script` on each element of a sequence.
pub open spec fn spec_to_script_seq(items: Seq<HostModel>) -> Seq<ScriptModel>
    decreases items,
{
    if items.len() == 0 {
        Seq::empty()
    } else {
        spec_to_script_seq(items.drop_last()).push(spec_to_script(items.last()))
    }
}

/// `spec_to_script` on the value of each entry, the key kept.
pub open spec fn spec_to_script_entries(entries: Seq<(Seq<char>, HostModel)>) -> Seq<
    (Seq<char>, ScriptModel),
>
    decreases entries,
{
    if entries.len() == 0 {
        Seq::empty()
    } else {
        spec_to_script_entries(entries.drop_last()).push(
            (entries.last().0, spec_to_script(entries.last().1)),
        )
    }
}

/// The host value that a script value becomes, or why it has none.
pub open spec fn spec_to_host(s: ScriptModel) -> Result<HostModel, ConversionFault>
    decreases s,
{
    match s {
        ScriptModel::Unit => Ok(HostModel::Null),
        ScriptModel::Bool(b) => Ok(HostModel::Bool(b)),
        ScriptModel::Integer(i) => Ok(HostModel::Number(integer_to_host(i))),
        ScriptModel::Float(bits) => if is_finite_bits(bits) {
            Ok(HostModel::Number(HostNumber::Float(bits)))
        } else {
            Ok(HostModel::Null)
        },
        ScriptModel::String(s) => Ok(HostModel::String(s)),
        ScriptModel::Vec(items) => match spec_to_host_seq(items) {
            Ok(converted) => Ok(HostModel::Array(converted)),
            Err(e) => Err(e),
        },
        ScriptModel::Object(entries) => match spec_to_host_entries(entries) {
            Ok(converted) => Ok(HostModel::Object(converted)),
            Err(e) => Err(e),
        },
        ScriptModel::Tuple(items) => if items.len() == 0 {
            Ok(HostModel::Null)
        } else {
            Err(ConversionFault::UnsupportedShape { arity: items.len() })
        },
        ScriptModel::Opaque(type_tag) => Err(ConversionFault::UnhandledType { type_tag }),
    }
}

/// `spec_to_host` on each element of a sequence: the converted sequence if
/// every element converts, else the fault of the first that does not.
pub open spec fn spec_to_host_seq(items: Seq<ScriptModel>) -> Result<
    Seq<HostModel>,
    ConversionFault,
>
    decreases items,
{
    if items.len() == 0 {
        Ok(Seq::empty())
    } else {
        match spec_to_host_seq(items.drop_last()) {
            Err(e) => Err(e),
            Ok(converted) => match spec_to_host(items.last()) {
                Err(e) => Err(e),
                Ok(h) => Ok(converted.push(h)),
            },
        }
    }
}

/// `spec_to_host` on the value of each entry, the key kept: the converted
/// entries if every value converts, else the fault of the first that does not.
pub open spec fn spec_to_host_entries(entries: Seq<(Seq<char>, ScriptModel)>) -> Result<
    Seq<(Seq<char>, HostModel)>,
    ConversionFault,
>
    decreases entries,
{
    if entries.len() == 0 {
        Ok(Seq::empty())
    } else {
        match spec_to_host_entries(entries.drop_last()) {
            Err(e) => Err(e),
            Ok(converted) => match spec_to_host(entries.last().1) {
                Err(e) => Err(e),
                Ok(h) => Ok(converted.push((entries.last().0, h))),
            },
        }
    }
}

/// `spec_to_script_seq` keeps the length and maps position by position.
pub proof fn lemma_to_script_seq(items: Seq<HostModel>)
    ensures
        spec_to_script_seq(items).len() == items.len(),
        forall|i: int|
            0 <= i < items.len() ==> #[trigger] spec_to_script_seq(items)[i] == spec_to_script(
                items[i],
            ),
    decreases items.len(),
{
    if items.len() > 0 {
        lemma_to_script_seq(items.drop_last());
    }
}

/// `spec_to_script_entries` keeps the length, the keys and their order.
pub proof fn lemma_to_script_entries(entries: Seq<(Seq<char>, HostModel)>)
    ensures
        spec_to_script_entries(entries).len() == entries.len(),
        forall|i: int|
            0 <= i < entries.len() ==> #[trigger] spec_to_script_entries(entries)[i] == (
                entries[i].0,
                spec_to_script(entries[i].1),
            ),
    decreases entries.len(),
{
    if entries.len() > 0 {
        lemma_to_script_entries(entries.drop_last());
    }
}

/// A sequence converts to `converted` where each element converts to the
/// element at its position.
pub proof fn lemma_to_host_seq_ok(items: Seq<ScriptModel>, converted: Seq<HostModel>)
    requires
        converted.len() == items.len(),
        forall|i: int| 0 <= i < items.len() ==> spec_to_host(#[trigger] items[i]) == Ok::<
            HostModel,
            ConversionFault,
        >(converted[i]),
    ensures
        spec_to_host_seq(items) == Ok::<Seq<HostModel>, ConversionFault>(converted),
    decreases items.len(),
{
    if items.len() > 0 {
        lemma_to_host_seq_ok(items.drop_last(), converted.drop_last());
        assert(converted.drop_last().push(converted.last()) =~= converted);
    } else {
        assert(converted =~= Seq::empty());
    }
}

/// A sequence fails with the fault of its first element that does not convert.
pub proof fn lemma_to_host_seq_err(items: Seq<ScriptModel>, k: int, fault: ConversionFault)
    requires
        0 <= k < items.len(),
        forall|i: int| 0 <= i < k ==> spec_to_host(#[trigger] items[i]) is Ok,
        spec_to_host(items[k]) == Err::<HostModel, ConversionFault>(fault),
    ensures
        spec_to_host_seq(items) == Err::<Seq<HostModel>, ConversionFault>(fault),
    decreases items.len(),
{
    if k < items.len() - 1 {
        lemma_to_host_seq_err(items.drop_last(), k, fault);
    } else {
        lemma_to_host_seq_all_ok(items.drop_last());
    }
}

/// A sequence converts where each of its elements does.
pub proof fn lemma_to_host_seq_all_ok(items: Seq<ScriptModel>)
    requires
        forall|i: int| 0 <= i < items.len() ==> spec_to_host(#[trigger] items[i]) is Ok,
    ensures
        spec_to_host_seq(items) is Ok,
    decreases items.len(),
{
    if items.len() > 0 {
        lemma_to_host_seq_all_ok(items.drop_last());
    }
}

/// Entries convert to `converted` where each value converts to the value at
/// its position and the keys agree.
pub proof fn lemma_to_host_entries_ok(
    entries: Seq<(Seq<char>, ScriptModel)>,
    converted: Seq<(Seq<char>, HostModel)>,
)
    requires
        converted.len() == entries.len(),
        forall|i: int|
            0 <= i < entries.len() ==> spec_to_host((#[trigger] entries[i]).1) == Ok::<
                HostModel,
                ConversionFault,
            >(converted[i].1) && converted[i].0 == entries[i].0,
    ensures
        spec_to_host_entries(entries) == Ok::<Seq<(Seq<char>, HostModel)>, ConversionFault>(
            converted,
        ),
    decreases entries.len(),
{
    if entries.len() > 0 {
        lemma_to_host_entries_ok(entries.drop_last(), converted.drop_last());
        assert(converted.drop_last().push(converted.last()) =~= converted);
    } else {
        assert(converted =~= Seq::empty());
    }
}

/// Entries fail with the fault of the first value that does not convert.
pub proof fn lemma_to_host_entries_err(
    entries: Seq<(Seq<char>, ScriptModel)>,
    k: int,
    fault: ConversionFault,
)
    requires
        0 <= k < entries.len(),
        forall|i: int| 0 <= i < k ==> spec_to_host((#[trigger] entries[i]).1) is Ok,
        spec_to_host(entries[k].1) == Err::<HostModel, ConversionFault>(fault),
    ensures
        spec_to_host_entries(entries) == Err::<Seq<(Seq<char>, HostModel)>, ConversionFault>(
            fault,
        ),
    decreases entries.len(),
{
    if k < entries.len() - 1 {
        lemma_to_host_entries_err(entries.drop_last(), k, fault);
    } else {
        lemma_to_host_entries_all_ok(entries.drop_last());
    }
}

/// Entries convert where each of their values does.
pub proof fn lemma_to_host_entries_all_ok(entries: Seq<(Seq<char>, ScriptModel)>)
    requires
        forall|i: int| 0 <= i < entries.len() ==> spec_to_host((#[trigger] entries[i]).1) is Ok,
    ensures
        spec_to_host_entries(entries) is Ok,
    decreases entries.len(),
{
    if entries.len() > 0 {
        lemma_to_host_entries_all_ok(entries.drop_last());
    }
}

/// Whether a script value is made of convertible variants only: no tuple
/// with fields and no value of another runtime type, at any depth.
pub open spec fn convertible(s: ScriptModel) -> bool
    decreases s,
{
    match s {
        ScriptModel::Vec(items) => forall|i: int|
            0 <= i < items.len() ==> convertible(#[trigger] items[i]),
        ScriptModel::Object(entries) => forall|i: int|
            0 <= i < entries.len() ==> convertible((#[trigger] entries[i]).1),
        ScriptModel::Tuple(items) => items.len() == 0,
        ScriptModel::Opaque(_) => false,
        _ => true,
    }
}

/// A script value converts to the host exactly when it is made of
/// convertible variants only; an unsupported value is never turned into null.
pub proof fn lemma_to_host_ok_iff_convertible(s: ScriptModel)
    ensures
        spec_to_host(s) is Ok <==> convertible(s),
        s is Opaque ==> spec_to_host(s) == Err::<HostModel, ConversionFault>(
            ConversionFault::UnhandledType { type_tag: s->Opaque_0 },
        ),
        s is Tuple && s->Tuple_0.len() > 0 ==> spec_to_host(s) == Err::<
            HostModel,
            ConversionFault,
        >(ConversionFault::UnsupportedShape { arity: s->Tuple_0.len() }),
    decreases s,
{
    match s {
        ScriptModel::Vec(items) => {
            lemma_to_host_seq_ok_iff(items);
        },
        ScriptModel::Object(entries) => {
            lemma_to_host_entries_ok_iff(entries);
        },
        _ => {},
    }
}

/// A sequence converts exactly when each of its elements is convertible.
pub proof fn lemma_to_host_seq_ok_iff(items: Seq<ScriptModel>)
    ensures
        spec_to_host_seq(items) is Ok <==> (forall|i: int|
            0 <= i < items.len() ==> convertible(#[trigger] items[i])),
    decreases items,
{
    if items.len() > 0 {
        lemma_to_host_seq_ok_iff(items.drop_last());
        lemma_to_host_ok_iff_convertible(items.last());
        let rest = items.drop_last();
        if spec_to_host_seq(items) is Ok {
            assert forall|i: int| 0 <= i < items.len() implies convertible(
                #[trigger] items[i],
            ) by {
                if i < items.len() - 1 {
                    assert(items[i] == rest[i]);
                }
            }
        }
        if forall|i: int| 0 <= i < items.len() ==> convertible(#[trigger] items[i]) {
            assert forall|i: int| 0 <= i < rest.len() implies convertible(#[trigger] rest[i]) by {
                assert(rest[i] == items[i]);
            }
        }
    }
}

/// Entries convert exactly when each of their values is convertible.
pub proof fn lemma_to_host_entries_ok_iff(entries: Seq<(Seq<char>, ScriptModel)>)
    ensures
        spec_to_host_entries(entries) is Ok <==> (forall|i: int|
            0 <= i < entries.len() ==> convertible((#[trigger] entries[i]).1)),
    decreases entries,
{
    if entries.len() > 0 {
        lemma_to_host_entries_ok_iff(entries.drop_last());
        lemma_to_host_ok_iff_convertible(entries.last().1);
        let rest = entries.drop_last();
        if spec_to_host_entries(entries) is Ok {
            assert forall|i: int| 0 <= i < entries.len() implies convertible(
                (#[trigger] entries[i]).1,
            ) by {
                if i < entries.len() - 1 {
                    assert(entries[i] == rest[i]);
                }
            }
        }
        if forall|i: int| 0 <= i < entries.len() ==> convertible((#[trigger] entries[i]).1) {
            assert forall|i: int| 0 <= i < rest.len() implies convertible(
                (#[trigger] rest[i]).1,
            ) by {
                assert(rest[i] == entries[i]);
            }
        }
    }
}

/// Round trip: what a well-formed host value becomes in the script converts
/// back to the host, and the value that comes back becomes the same script
/// value again. The value that comes back is well formed too.
pub proof fn lemma_round_trip(h: HostModel)
    requires
        host_wf(h),
    ensures
        spec_to_host(spec_to_script(h)) is Ok,
        spec_to_script(spec_to_host(spec_to_script(h))->Ok_0) == spec_to_script(h),
        host_wf(spec_to_host(spec_to_script(h))->Ok_0),
    decreases h,
{
    match h {
        HostModel::Number(n) => {
            if let HostNumber::PosInt(u) = n {
                if u > i64::MAX as u64 {
                    lemma_large_integer_bits_finite(u);
                }
            }
        },
        HostModel::Array(items) => {
            lemma_round_trip_seq(items);
        },
        HostModel::Object(entries) => {
            lemma_round_trip_entries(entries);
        },
        _ => {},
    }
}

/// Round trip, element by element.
pub proof fn lemma_round_trip_seq(items: Seq<HostModel>)
    requires
        forall|i: int| 0 <= i < items.len() ==> host_wf(#[trigger] items[i]),
    ensures
        spec_to_host_seq(spec_to_script_seq(items)) is Ok,
        spec_to_script_seq(spec_to_host_seq(spec_to_script_seq(items))->Ok_0)
            == spec_to_script_seq(items),
        forall|i: int|
            0 <= i < spec_to_host_seq(spec_to_script_seq(items))->Ok_0.len() ==> host_wf(
                #[trigger] spec_to_host_seq(spec_to_script_seq(items))->Ok_0[i],
            ),
    decreases items,
{
    if items.len() > 0 {
        let rest = items.drop_last();
        assert forall|i: int| 0 <= i < rest.len() implies host_wf(#[trigger] rest[i]) by {
            assert(rest[i] == items[i]);
        }
        lemma_round_trip_seq(rest);
        lemma_round_trip(items.last());
        let scripted = spec_to_script_seq(items);
        assert(scripted.drop_last() =~= spec_to_script_seq(rest));
        let back_rest = spec_to_host_seq(spec_to_script_seq(rest))->Ok_0;
        let back_last = spec_to_host(spec_to_script(items.last()))->Ok_0;
        let back = back_rest.push(back_last);
        assert(spec_to_host_seq(scripted) == Ok::<Seq<HostModel>, ConversionFault>(back));
        assert(back.drop_last() =~= back_rest);
    }
}

/// Round trip, entry by entry.
pub proof fn lemma_round_trip_entries(entries: Seq<(Seq<char>, HostModel)>)
    requires
        forall|i: int| 0 <= i < entries.len() ==> host_wf((#[trigger] entries[i]).1),
    ensures
        spec_to_host_entries(spec_to_script_entries(entries)) is Ok,
        spec_to_script_entries(spec_to_host_entries(spec_to_script_entries(entries))->Ok_0)
            == spec_to_script_entries(entries),
        forall|i: int|
            0 <= i < spec_to_host_entries(spec_to_script_entries(entries))->Ok_0.len()
                ==> host_wf(
                (#[trigger] spec_to_host_entries(spec_to_script_entries(entries))->Ok_0[i]).1,
            ),
    decreases entries,
{
    if entries.len() > 0 {
        let rest = entries.drop_last();
        assert forall|i: int| 0 <= i < rest.len() implies host_wf((#[trigger] rest[i]).1) by {
            assert(rest[i] == entries[i]);
        }
        lemma_round_trip_entries(rest);
        lemma_round_trip(entries.last().1);
        let scripted = spec_to_script_entries(entries);
        assert(scripted.drop_last() =~= spec_to_script_entries(rest));
        let back_rest = spec_to_host_entries(spec_to_script_entries(rest))->Ok_0;
        let back_last = spec_to_host(spec_to_script(entries.last().1))->Ok_0;
        let back = back_rest.push((entries.last().0, back_last));
        assert(spec_to_host_entries(scripted) == Ok::<
            Seq<(Seq<char>, HostModel)>,
            ConversionFault,
        >(back));
        assert(back.drop_last() =~= back_rest);
    }
}

/// What a script value becomes on the host is well formed: its floats are
/// finite numbers and its negative integers are held as such.
pub proof fn lemma_to_host_wf(s: ScriptModel)
    ensures
        spec_to_host(s) is Ok ==> host_wf(spec_to_host(s)->Ok_0),
    decreases s,
{
    match s {
        ScriptModel::Vec(items) => {
            lemma_to_host_seq_wf(items);
        },
        ScriptModel::Object(entries) => {
            lemma_to_host_entries_wf(entries);
        },
        _ => {},
    }
}

/// What a sequence of script values becomes on the host is well formed.
pub proof fn lemma_to_host_seq_wf(items: Seq<ScriptModel>)
    ensures
        spec_to_host_seq(items) is Ok ==> forall|i: int|
            0 <= i < spec_to_host_seq(items)->Ok_0.len() ==> host_wf(
                #[trigger] spec_to_host_seq(items)->Ok_0[i],
            ),
    decreases items,
{
    if items.len() > 0 {
        lemma_to_host_seq_wf(items.drop_last());
        lemma_to_host_wf(items.last());
    }
}

/// What the entries of a script object become on the host is well formed.
pub proof fn lemma_to_host_entries_wf(entries: Seq<(Seq<char>, ScriptModel)>)
    ensures
        spec_to_host_entries(entries) is Ok ==> forall|i: int|
            0 <= i < spec_to_host_entries(entries)->Ok_0.len() ==> host_wf(
                (#[trigger] spec_to_host_entries(entries)->Ok_0[i]).1,
            ),
    decreases entries,
{
    if entries.len() > 0 {
        lemma_to_host_entries_wf(entries.drop_last());
        lemma_to_host_wf(entries.last().1);
    }
}

} // verus!
