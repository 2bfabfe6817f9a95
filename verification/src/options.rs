use vstd::prelude::*;
use crate::setup::{SetupError, SetupFault};

verus! {

/// The compiler's option set, carried through as it is.
#[verifier::external_type_specification]
#[verifier::external_body]
pub struct ExOptions(rune::Options);

/// The compiler's report on an option that it refused.
#[verifier::external_type_specification]
#[verifier::external_body]
pub struct ExParseOptionError(rune::compile::ParseOptionError);

/// Whether the compiler accepts an option string: what
/// `rune::Options::parse_option` decides, which rests on the string alone.
pub uninterp spec fn option_accepted(option: Seq<char>) -> bool;

/// The compiler's default option set, `rune::Options::default()`.
#[verifier::external_body]
fn default_options() -> rune::Options {
    rune::Options::default()
}

/// Applies one option string with `rune::Options::parse_option`. Believed:
/// the call succeeds exactly on the strings that the compiler accepts.
#[verifier::external_body]
fn apply_option(options: &mut rune::Options, option: &str) -> (r: Result<
    (),
    rune::compile::ParseOptionError,
>)
    ensures
        r is Ok <==> option_accepted(option@),
{
    options.parse_option(option)
}

/// The compiler's own words for a refused option, from its `Display`.
#[verifier::external_body]
fn option_error_text(error: &rune::compile::ParseOptionError) -> String {
    format!("{}", error)
}

/// What the outcome of applying the option at `index` means for the setup:
/// nothing if it was accepted, else a setup error with the compiler's words.
pub fn check_option(index: usize, outcome: Result<(), String>) -> (r: Result<(), SetupError>)
    ensures
        match outcome {
            Ok(()) => r is Ok,
            Err(message) => r is Err && r->Err_0@ == (SetupFault::InvalidOption {
                index: index as nat,
                message: message@,
            }),
        },
{
    match outcome {
        Ok(()) => Ok(()),
        Err(message) => Err(SetupError::InvalidOption { index, message }),
    }
}

/// The index of the first option that the compiler does not accept, if any.
pub open spec fn first_refused(options: Seq<String>) -> Option<nat>
    decreases options.len(),
{
    if options.len() == 0 {
        None
    } else {
        match first_refused(options.drop_last()) {
            Some(i) => Some(i),
            None => if option_accepted(options.last()@) {
                None
            } else {
                Some((options.len() - 1) as nat)
            },
        }
    }
}

/// `first_refused` names an option that is refused and has none before it
/// that is; it names none only where every option is accepted.
pub proof fn lemma_first_refused(options: Seq<String>)
    ensures
        match first_refused(options) {
            Some(k) => k < options.len() && !option_accepted(options[k as int]@) && forall|
                i: int,
            | 0 <= i < k ==> option_accepted(#[trigger] options[i]@),
            None => forall|i: int| 0 <= i < options.len() ==> option_accepted(
                #[trigger] options[i]@,
            ),
        },
    decreases options.len(),
{
    if options.len() > 0 {
        let rest = options.drop_last();
        lemma_first_refused(rest);
        assert forall|i: int| 0 <= i < rest.len() implies rest[i] == options[i] by {}
    }
}

/// Builds the compiler's option set from option strings, applied in order
/// to the defaults. The first string that the compiler refuses ends the
/// setup with an error that names its place in the list.
pub fn parse_options(options: &Vec<String>) -> (r: Result<rune::Options, SetupError>)
    ensures
        r is Ok <==> first_refused(options@) is None,
        r matches Err(e) ==> (e@ matches SetupFault::InvalidOption { index, .. } && Some(index)
            == first_refused(options@)),
{
    let mut parsed = default_options();
    let mut i: usize = 0;
    assert(options@.take(0) =~= Seq::<String>::empty());
    while i < options.len()
        invariant
            i <= options.len(),
            first_refused(options@.take(i as int)) is None,
        decreases options.len() - i,
    {
        let ghost upto = options@.take(i + 1);
        assert(upto.drop_last() =~= options@.take(i as int));
        assert(upto.last() == options@[i as int]);
        let outcome = match apply_option(&mut parsed, options[i].as_str()) {
            Ok(()) => Ok(()),
            Err(e) => Err(option_error_text(&e)),
        };
        match check_option(i, outcome) {
            Ok(()) => {},
            Err(e) => {
                proof {
                    lemma_first_refused_prefix(options@, i as int);
                }
                return Err(e);
            },
        }
        i += 1;
    }
    assert(options@.take(options@.len() as int) =~= options@);
    Ok(parsed)
}

/// The first refused option of a list is that of any prefix that holds one.
pub proof fn lemma_first_refused_prefix(options: Seq<String>, k: int)
    requires
        0 <= k < options.len(),
        first_refused(options.take(k + 1)) == Some(k as nat),
    ensures
        first_refused(options) == Some(k as nat),
    decreases options.len(),
{
    if options.len() == k + 1 {
        assert(options.take(k + 1) =~= options);
    } else {
        assert(options.drop_last().take(k + 1) =~= options.take(k + 1));
        lemma_first_refused_prefix(options.drop_last(), k);
    }
}

} // verus!
