use cyb_runtime::config::{Config, DEFAULT_BUDGET};
use cyb_runtime::options::{check_option, parse_options};
use cyb_runtime::setup::SetupError;

fn list(items: &[&str]) -> Vec<String> {
    items.iter().map(|s| String::from(*s)).collect()
}

#[test]
fn no_options_are_accepted() {
    assert!(parse_options(&Vec::new()).is_ok());
}

#[test]
fn known_options_are_accepted() {
    assert!(parse_options(&list(&["debug-info=true", "macros", "link-checks=false"])).is_ok());
    assert!(parse_options(&list(&["memoize-instance-fn, bytecode=true"])).is_ok());
}

#[test]
fn an_unknown_option_is_a_setup_error_at_its_place() {
    let refused = parse_options(&list(&["macros", "no-such-option", "also-bad"]));
    match refused {
        Err(SetupError::InvalidOption { index, message }) => {
            assert_eq!(index, 1);
            assert!(message.contains("no-such-option"), "{message}");
        }
        other => panic!("{:?}", other.is_ok()),
    }
    let first = parse_options(&list(&["lowering=9"]));
    assert!(matches!(first, Err(SetupError::InvalidOption { index: 0, .. })));
}

#[test]
fn an_applied_option_changes_the_option_set() {
    let plain = format!("{:?}", parse_options(&Vec::new()).unwrap());
    let changed = format!("{:?}", parse_options(&list(&["bytecode=true"])).unwrap());
    assert_ne!(plain, changed);
    let unchanged = format!("{:?}", parse_options(&list(&["bytecode=false"])).unwrap());
    assert_eq!(format!("{:?}", rune::Options::default()), plain);
    assert_eq!(plain, unchanged);
}

#[test]
fn the_outcome_of_one_option_decides() {
    assert_eq!(check_option(4, Ok(())), Ok(()));
    assert_eq!(
        check_option(4, Err(String::from("Unsupported compile option `x`"))),
        Err(SetupError::InvalidOption {
            index: 4,
            message: String::from("Unsupported compile option `x`"),
        })
    );
    assert_eq!(
        SetupError::InvalidOption { index: 4, message: String::from("words") }.message(),
        "words"
    );
}

#[test]
fn the_budget_defaults_and_must_be_positive() {
    let mut config = Config::default();
    assert_eq!(config.budget, None);
    assert!(config.options.is_empty());
    assert!(!config.experimental && !config.instructions && !config.suppress_text_warnings);
    assert_eq!(DEFAULT_BUDGET, 1_000_000);
    assert_eq!(config.effective_budget(), Ok(1_000_000));
    config.budget = Some(1000);
    assert_eq!(config.effective_budget(), Ok(1000));
    config.budget = Some(0);
    assert_eq!(config.effective_budget(), Err(SetupError::ZeroBudget));
    assert_eq!(SetupError::ZeroBudget.message(), "the step budget must be positive");
}
