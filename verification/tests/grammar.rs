use lookup_bot::bridge::{keep_or_replace, strip_bridge_prefix};
use lookup_bot::command::{classify, match_keyword, Command, PollutantSelector};
use lookup_bot::text::{join, same_text, single, single_line, starts_with};

fn dictionary(query: &str) -> Option<Command> {
    Some(Command::Dictionary { query: query.to_string() })
}

fn knowledge(query: &str) -> Option<Command> {
    Some(Command::KnowledgeQuery { query: query.to_string() })
}

fn air(selector: PollutantSelector, location: &str) -> Option<Command> {
    Some(Command::AirQuality {
        pollutant_selector: selector,
        location_query: location.to_string(),
    })
}

fn code(c: &str) -> PollutantSelector {
    PollutantSelector::SingleCode { code: c.to_string() }
}

#[test]
fn dictionary_keywords_are_recognised() {
    assert_eq!(classify("dic hello"), dictionary("hello"));
    assert_eq!(classify("d hello"), dictionary("hello"));
    assert_eq!(classify("D hello"), dictionary("hello"));
    assert_eq!(classify("Dic hello world"), dictionary("hello world"));
}

#[test]
fn dictionary_keyword_is_not_upper_case_throughout() {
    assert_eq!(classify("DIC hello"), None);
    assert_eq!(classify("dIc hello"), None);
    assert_eq!(classify("di hello"), None);
}

#[test]
fn knowledge_keywords_are_recognised() {
    assert_eq!(classify("w speed of light"), knowledge("speed of light"));
    assert_eq!(classify("W speed of light"), knowledge("speed of light"));
    assert_eq!(classify("wolfram 2+2"), knowledge("2+2"));
    assert_eq!(classify("Wolfram 2+2"), knowledge("2+2"));
    assert_eq!(classify("WOLFRAM 2+2"), None);
}

#[test]
fn air_keywords_are_recognised() {
    assert_eq!(classify("air Seoul"), air(PollutantSelector::All, "Seoul"));
    assert_eq!(classify("pm Seoul"), air(PollutantSelector::PmSummary, "Seoul"));
    assert_eq!(classify("pm10 Seoul"), air(code("pm10"), "Seoul"));
    assert_eq!(classify("pm25 Seoul"), air(code("pm25"), "Seoul"));
    assert_eq!(classify("o3 Seoul"), air(code("o3"), "Seoul"));
    assert_eq!(classify("so2 Seoul"), air(code("so2"), "Seoul"));
    assert_eq!(classify("no2 Seoul"), air(code("no2"), "Seoul"));
    assert_eq!(classify("co Seoul"), air(code("co"), "Seoul"));
}

#[test]
fn air_keywords_are_lower_case_only() {
    assert_eq!(classify("PM10 Seoul"), None);
    assert_eq!(classify("Air Seoul"), None);
    assert_eq!(classify("Pm Seoul"), None);
    assert_eq!(classify("CO Seoul"), None);
}

#[test]
fn the_keyword_ends_at_the_first_space() {
    assert_eq!(classify("pm 10 Seoul"), air(PollutantSelector::PmSummary, "10 Seoul"));
    assert_eq!(classify("d ic hello"), dictionary("ic hello"));
    assert_eq!(classify("d  hello"), dictionary(" hello"));
}

#[test]
fn messages_without_a_keyword_are_no_command() {
    assert_eq!(classify(""), None);
    assert_eq!(classify("hello there"), None);
    assert_eq!(classify("dictionary hello"), None);
    assert_eq!(classify(" dic hello"), None);
    assert_eq!(classify("pm11 Seoul"), None);
    assert_eq!(classify("x"), None);
}

#[test]
fn a_keyword_needs_a_rest() {
    assert_eq!(classify("dic"), None);
    assert_eq!(classify("dic "), None);
    assert_eq!(classify("w"), None);
    assert_eq!(classify("w "), None);
    assert_eq!(classify("air "), None);
}

#[test]
fn the_rest_stays_on_one_line() {
    assert_eq!(classify("dic hello\nworld"), None);
    assert_eq!(classify("w a\n"), None);
}

#[test]
fn the_rest_may_hold_any_other_character() {
    assert_eq!(classify("dic 안녕 하세요"), dictionary("안녕 하세요"));
    assert_eq!(classify("air 서울역"), air(PollutantSelector::All, "서울역"));
}

#[test]
fn match_keyword_gives_the_rest() {
    assert_eq!(match_keyword("dic hello", "dic"), Some("hello".to_string()));
    assert_eq!(match_keyword("dic hello", "d"), None);
    assert_eq!(match_keyword("dic", "dic"), None);
    assert_eq!(match_keyword("", ""), None);
    assert_eq!(match_keyword(" x", ""), Some("x".to_string()));
}

#[test]
fn join_puts_the_separator_between_neighbours() {
    let parts = vec!["a".to_string(), "b".to_string(), "c".to_string()];
    assert_eq!(join(&parts, ", "), "a, b, c");
    assert_eq!(join(&vec!["a".to_string()], ", "), "a");
    assert_eq!(join(&Vec::new(), ", "), "");
    assert_eq!(join(&vec!["".to_string(), "".to_string()], "-"), "-");
}

#[test]
fn single_holds_one_line() {
    assert_eq!(single("a b"), vec!["a b".to_string()]);
    assert_eq!(single(""), vec!["".to_string()]);
}

#[test]
fn text_tools_compare_by_character() {
    assert!(starts_with("안녕 hello", "안녕"));
    assert!(starts_with("abc", ""));
    assert!(!starts_with("ab", "abc"));
    assert!(!starts_with("abc", "abd"));
    assert!(same_text("브릿지", "브릿지"));
    assert!(!same_text("abc", "abd"));
    assert!(!same_text("abc", "ab"));
    assert!(single_line("one line"));
    assert!(single_line(""));
    assert!(!single_line("two\nlines"));
}

#[test]
fn bridge_prefix_is_cut_off() {
    assert_eq!(strip_bridge_prefix("<nick> dic hello"), "dic hello");
    assert_eq!(strip_bridge_prefix("<> w 2+2"), "w 2+2");
}

#[test]
fn bridge_prefix_ends_at_the_first_closing_bracket() {
    assert_eq!(strip_bridge_prefix("<a> <b> text"), "<b> text");
    assert_eq!(strip_bridge_prefix("<a>b> text"), "text");
}

#[test]
fn messages_without_a_bridge_prefix_stay_as_they_are() {
    assert_eq!(strip_bridge_prefix("dic hello"), "dic hello");
    assert_eq!(strip_bridge_prefix(" <nick> dic hello"), " <nick> dic hello");
    assert_eq!(strip_bridge_prefix("<nick>dic hello"), "<nick>dic hello");
    assert_eq!(strip_bridge_prefix("<ni\nck> dic hello"), "<ni\nck> dic hello");
    assert_eq!(strip_bridge_prefix(""), "");
}

#[test]
fn a_message_is_kept_where_nothing_replaced_it() {
    assert_eq!(keep_or_replace("<a> b", Some("b".to_string())), "b");
    assert_eq!(keep_or_replace("<a> b", Some(String::new())), "");
    assert_eq!(keep_or_replace("<a> b", None), "<a> b");
}
