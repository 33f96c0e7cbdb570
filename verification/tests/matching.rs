use wiremix::config::{MatchCondition, MatchValue};

#[test]
fn parse_null() {
    assert!(matches!("null".parse::<MatchValue>().unwrap(), MatchValue::Null));
}

#[test]
fn parse_not_null() {
    assert!(matches!("!null".parse::<MatchValue>().unwrap(), MatchValue::NotNull));
}

#[test]
fn parse_quoted_null() {
    let val = "\"null\"".parse::<MatchValue>().unwrap();
    assert!(matches!(val, MatchValue::Literal(s) if s == "null"));
}

#[test]
fn parse_negated_quoted_null() {
    let val = "!\"null\"".parse::<MatchValue>().unwrap();
    assert!(matches!(val, MatchValue::NegatedLiteral(s) if s == "null"));
}

#[test]
fn parse_literal() {
    let val = "hello".parse::<MatchValue>().unwrap();
    assert!(matches!(val, MatchValue::Literal(s) if s == "hello"));
}

#[test]
fn parse_negated_literal() {
    let val = "!hello".parse::<MatchValue>().unwrap();
    assert!(matches!(val, MatchValue::NegatedLiteral(s) if s == "hello"));
}

#[test]
fn parse_regex() {
    let val = "~^foo.*bar$".parse::<MatchValue>().unwrap();
    assert!(matches!(val, MatchValue::Regex(_)));
}

#[test]
fn parse_negated_regex() {
    let val = "!~^foo.*bar$".parse::<MatchValue>().unwrap();
    assert!(matches!(val, MatchValue::NegatedRegex(_)));
}

#[test]
fn parse_invalid_regex() {
    assert!("~[invalid".parse::<MatchValue>().is_err());
}

#[test]
fn null_matches_none() {
    let val = "null".parse::<MatchValue>().unwrap();
    assert!(val.matches(None));
    assert!(!val.matches(Some("anything")));
}

#[test]
fn not_null_matches_some() {
    let val = "!null".parse::<MatchValue>().unwrap();
    assert!(val.matches(Some("anything")));
    assert!(!val.matches(None));
}

#[test]
fn literal_matches_exact() {
    let val = "hello".parse::<MatchValue>().unwrap();
    assert!(val.matches(Some("hello")));
    assert!(!val.matches(Some("world")));
    assert!(!val.matches(None));
}

#[test]
fn negated_literal_matches_different() {
    let val = "!hello".parse::<MatchValue>().unwrap();
    assert!(!val.matches(Some("hello")));
    assert!(val.matches(Some("world")));
    assert!(val.matches(None));
}

#[test]
fn regex_matches_pattern() {
    let val = "~^foo\\d+$".parse::<MatchValue>().unwrap();
    assert!(val.matches(Some("foo123")));
    assert!(!val.matches(Some("bar123")));
    assert!(!val.matches(None));
}

#[test]
fn negated_regex_matches_non_pattern() {
    let val = "!~^foo\\d+$".parse::<MatchValue>().unwrap();
    assert!(!val.matches(Some("foo123")));
    assert!(val.matches(Some("bar123")));
    assert!(val.matches(None));
}

#[test]
fn quoted_null_matches_literal_null_string() {
    let val = "\"null\"".parse::<MatchValue>().unwrap();
    assert!(val.matches(Some("null")));
    assert!(!val.matches(None));
}

#[test]
fn negated_quoted_null_rejects_literal_null_string() {
    let val = "!\"null\"".parse::<MatchValue>().unwrap();
    assert!(!val.matches(Some("null")));
    assert!(val.matches(Some("other")));
    assert!(val.matches(None));
}

fn round_trip(s: &str) {
    let val = s.parse::<MatchValue>().unwrap();
    assert_eq!(val.to_text(), s);
    let reparsed = val.to_text().parse::<MatchValue>().unwrap();
    assert_eq!(val, reparsed);
}

#[test]
fn display_round_trips_null() {
    round_trip("null");
}

#[test]
fn display_round_trips_not_null() {
    round_trip("!null");
}

#[test]
fn display_round_trips_quoted_null_literal() {
    round_trip("\"null\"");
}

#[test]
fn display_round_trips_negated_quoted_null_literal() {
    round_trip("!\"null\"");
}

#[test]
fn display_round_trips_literal() {
    round_trip("hello");
}

#[test]
fn display_round_trips_negated_literal() {
    round_trip("!hello");
}

#[test]
fn display_round_trips_regex() {
    round_trip("~^foo.*bar$");
}

#[test]
fn display_round_trips_negated_regex() {
    round_trip("!~^foo.*bar$");
}

#[test]
fn regex_match_is_unanchored_search() {
    // The compiled expression is really used: a plain substring search.
    let val = "~oo".parse::<MatchValue>().unwrap();
    assert!(val.matches(Some("foo")));
    assert!(!val.matches(Some("bar")));
}

#[test]
fn different_kinds_are_not_equal() {
    let literal = "hello".parse::<MatchValue>().unwrap();
    let negated = "!hello".parse::<MatchValue>().unwrap();
    let regex = "~hello".parse::<MatchValue>().unwrap();
    assert_ne!(literal, negated);
    assert_ne!(literal, regex);
    assert_eq!(regex, "~hello".parse::<MatchValue>().unwrap());
}

#[test]
fn condition_from_node_name_matches_that_name_only() {
    let condition = MatchCondition::from_node_name("test-node");
    assert!(condition.matches(&vec![Some(String::from("test-node"))]));
    assert!(!condition.matches(&vec![Some(String::from("other"))]));
    assert!(!condition.matches(&vec![None]));
}

#[test]
fn condition_needs_every_entry_to_hold() {
    let condition = MatchCondition(vec![
        (String::from("node.name"), "spotify".parse().unwrap()),
        (String::from("media.class"), "!null".parse().unwrap()),
    ]);
    assert!(condition.matches(&vec![Some(String::from("spotify")), Some(String::from("x"))]));
    assert!(!condition.matches(&vec![Some(String::from("spotify")), None]));
}
