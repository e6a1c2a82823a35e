use andean_condor::cli_parameter::{CLIParameter, ParameterMap};
use andean_condor::parameter_parser::EncoderParamsParser;

fn text(prefix: &str, delimiter: &str, value: &str) -> CLIParameter {
    CLIParameter::new_string(prefix, delimiter, value)
}

fn number(prefix: &str, delimiter: &str, value: i64) -> CLIParameter {
    CLIParameter::new_number(prefix, delimiter, value)
}

fn flag(prefix: &str) -> CLIParameter {
    CLIParameter::new_bool(prefix, true)
}

#[test]
fn parse_space_and_equals_pairs() {
    let map = EncoderParamsParser::parse_string("--preset 4 --crf=30 -v");
    assert_eq!(map.len(), 3);
    assert_eq!(map.get("preset"), Some(&number("--", " ", 4)));
    assert_eq!(map.get("crf"), Some(&number("--", "=", 30)));
    assert_eq!(map.get("v"), Some(&flag("-")));
}

#[test]
fn parse_textual_values() {
    let map = EncoderParamsParser::parse_string("--tune grain --end-usage=q");
    assert_eq!(map.get("tune"), Some(&text("--", " ", "grain")));
    assert_eq!(map.get("end-usage"), Some(&text("--", "=", "q")));
}

#[test]
fn parse_negative_and_signed_numbers() {
    let map = EncoderParamsParser::parse_string("--keyint -1 --level=+5 --big 9223372036854775808");
    assert_eq!(map.get("keyint"), Some(&number("--", " ", -1)));
    assert_eq!(map.get("level"), Some(&number("--", "=", 5)));
    // Beyond 64 bits: kept as text.
    assert_eq!(map.get("big"), Some(&text("--", " ", "9223372036854775808")));
}

#[test]
fn parse_later_item_replaces_earlier() {
    let map = EncoderParamsParser::parse_string("--crf 20 --crf 30");
    assert_eq!(map.len(), 1);
    assert_eq!(map.get("crf"), Some(&number("--", " ", 30)));
}

#[test]
fn parse_stops_at_item_without_prefix() {
    let map = EncoderParamsParser::parse_string("--a 1 stray --b 2");
    assert_eq!(map.len(), 1);
    assert_eq!(map.get("a"), Some(&number("--", " ", 1)));
    assert!(!map.contains_key("b"));
}

#[test]
fn parse_flag_followed_by_option_takes_it_as_value() {
    // `--a --b` reads `--b` as the value of `a`.
    let map = EncoderParamsParser::parse_string("--a --b");
    assert_eq!(map.len(), 1);
    assert_eq!(map.get("a"), Some(&text("--", " ", "--b")));
}

#[test]
fn parse_empty_and_blank_text() {
    assert_eq!(EncoderParamsParser::parse_string("").len(), 0);
    assert_eq!(EncoderParamsParser::parse_string("   \t\n").len(), 0);
    let map = EncoderParamsParser::parse_string("  \t -x");
    assert_eq!(map.get("x"), Some(&flag("-")));
}

#[test]
fn parse_prefix_followed_by_space_takes_the_rest() {
    let map = EncoderParamsParser::parse_string("-- rest of line");
    assert_eq!(map.len(), 1);
    assert_eq!(map.get(" rest of line"), Some(&flag("--")));
}

#[test]
fn parameter_map_insert_get_remove() {
    let mut map = ParameterMap::new();
    map.insert_number("crf", "--", " ", 30);
    map.insert_string("preset", "--", "=", "slow");
    map.insert_number("crf", "--", " ", 25);
    assert_eq!(map.len(), 2);
    assert_eq!(map.get("crf"), Some(&number("--", " ", 25)));
    // A replaced name keeps its position.
    assert_eq!(map.entry(0).0, "crf");
    assert_eq!(map.remove("crf"), Some(number("--", " ", 25)));
    assert_eq!(map.remove("crf"), None);
    assert_eq!(map.len(), 1);
}

#[test]
fn parameter_map_extend_prefers_other() {
    let mut a = ParameterMap::new();
    a.insert_number("crf", "--", " ", 30);
    a.insert_bool("y", "-", true);
    let mut b = ParameterMap::new();
    b.insert_number("crf", "--", " ", 20);
    b.insert_string("tune", "--", " ", "film");
    a.extend(&b);
    assert_eq!(a.len(), 3);
    assert_eq!(a.get("crf"), Some(&number("--", " ", 20)));
    assert_eq!(a.get("tune"), Some(&text("--", " ", "film")));
}

#[test]
fn arguments_of_parameters() {
    let mut args = vec!["enc".to_string()];
    number("--", " ", 4).push_arguments("preset", &mut args);
    number("--", "=", 30).push_arguments("crf", &mut args);
    flag("-").push_arguments("y", &mut args);
    CLIParameter::new_bool("--", false).push_arguments("quiet", &mut args);
    assert_eq!(args, vec!["enc", "--preset", "4", "--crf=30", "-y"]);
    assert_eq!(number("--", " ", -7).to_string_value(), "-7");
    assert_eq!(flag("--").to_string_value(), "true");
}

#[test]
fn parameters_without_inherited() {
    let mut parent = ParameterMap::new();
    parent.insert_number("crf", "--", " ", 30);
    parent.insert_number("preset", "--", " ", 4);
    let mut own = ParameterMap::new();
    own.insert_number("crf", "--", " ", 30);
    own.insert_number("preset", "--", " ", 6);
    own.insert_bool("y", "-", true);
    let shown = own.without_inherited(&parent);
    assert_eq!(shown.len(), 2);
    assert!(!shown.contains_key("crf"));
    assert_eq!(shown.get("preset"), Some(&number("--", " ", 6)));
    assert!(shown.contains_key("y"));
}

#[test]
fn same_parameters_compare_equal() {
    assert!(number("--", " ", 1).same_as(&number("--", " ", 1)));
    assert!(!number("--", " ", 1).same_as(&number("--", "=", 1)));
    assert!(!number("--", " ", 1).same_as(&text("--", " ", "1")));
    assert!(flag("-").same_as(&flag("-")));
}
