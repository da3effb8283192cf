use dev_console::command::{match_and_parse, ConsoleCommand};
use dev_console::commands::{parse_amount, Give, Heal};
use dev_console::errors::ConsoleError;
use dev_console::numeric::parse_u32;

fn words(toks: &[&str]) -> Vec<String> {
    toks.iter().map(|t| t.to_string()).collect()
}

#[test]
fn name_matches_and_parses() {
    assert_eq!(match_and_parse::<Give>(&words(&["give", "5"])), Ok(Give { amount: 5 }));
}

#[test]
fn alias_matches_and_parses_identically() {
    let by_name = match_and_parse::<Give>(&words(&["give", "5"]));
    let by_alias = match_and_parse::<Give>(&words(&["g", "5"]));
    assert_eq!(by_name, by_alias);
    assert_eq!(by_alias, Ok(Give { amount: 5 }));
}

#[test]
fn other_first_token_is_no_match() {
    assert_eq!(match_and_parse::<Give>(&words(&["gift", "5"])), Err(ConsoleError::NoMatch));
}

#[test]
fn prefix_of_name_is_no_match() {
    assert_eq!(match_and_parse::<Give>(&words(&["giv", "5"])), Err(ConsoleError::NoMatch));
    assert_eq!(match_and_parse::<Give>(&words(&["GIVE", "5"])), Err(ConsoleError::NoMatch));
}

#[test]
fn empty_tokens_are_no_match() {
    assert_eq!(match_and_parse::<Give>(&words(&[])), Err(ConsoleError::NoMatch));
}

#[test]
fn heal_has_no_alias() {
    assert_eq!(match_and_parse::<Heal>(&words(&["heal", "10"])), Ok(Heal { amount: 10 }));
    assert_eq!(match_and_parse::<Heal>(&words(&["h", "10"])), Err(ConsoleError::NoMatch));
}

#[test]
fn invalid_amount_is_parse_failure() {
    assert_eq!(
        match_and_parse::<Give>(&words(&["give", "abc"])),
        Err(ConsoleError::ParseFailure("invalid value for argument: amount".to_string()))
    );
}

#[test]
fn missing_amount_is_parse_failure() {
    assert_eq!(
        match_and_parse::<Heal>(&words(&["heal"])),
        Err(ConsoleError::ParseFailure("missing required argument: amount".to_string()))
    );
}

#[test]
fn extra_argument_is_parse_failure() {
    assert_eq!(
        match_and_parse::<Heal>(&words(&["heal", "1", "2"])),
        Err(ConsoleError::ParseFailure("unexpected extra argument".to_string()))
    );
}

#[test]
fn descriptors_declare_name_and_alias() {
    let give = Give::descriptor();
    assert_eq!(give.name, "give");
    assert_eq!(give.alias.as_deref(), Some("g"));
    let heal = Heal::descriptor();
    assert_eq!(heal.name, "heal");
    assert_eq!(heal.alias, None);
}

#[test]
fn parse_amount_reports_each_schema_violation() {
    assert_eq!(parse_amount(&words(&["give", "7"])), Ok(7));
    assert_eq!(
        parse_amount(&words(&["give"])),
        Err("missing required argument: amount".to_string())
    );
    assert_eq!(
        parse_amount(&words(&["give", "1", "2"])),
        Err("unexpected extra argument".to_string())
    );
    assert_eq!(
        parse_amount(&words(&["give", "12a"])),
        Err("invalid value for argument: amount".to_string())
    );
}

#[test]
fn add_sums() {
    assert_eq!(dev_console::add(2, 3), 5);
    assert_eq!(dev_console::add(0, 0), 0);
}

#[test]
fn parse_u32_accepts_plain_decimal_digits() {
    assert_eq!(parse_u32("0"), Some(0));
    assert_eq!(parse_u32("42"), Some(42));
    assert_eq!(parse_u32("007"), Some(7));
    assert_eq!(parse_u32("4294967295"), Some(u32::MAX));
}

#[test]
fn parse_u32_rejects_everything_else() {
    assert_eq!(parse_u32(""), None);
    assert_eq!(parse_u32("abc"), None);
    assert_eq!(parse_u32("-1"), None);
    assert_eq!(parse_u32("+1"), None);
    assert_eq!(parse_u32("1 2"), None);
    assert_eq!(parse_u32("4294967296"), None);
    assert_eq!(parse_u32("99999999999999999999"), None);
}
