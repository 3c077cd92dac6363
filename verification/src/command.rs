//! The command grammar: which chat messages are commands, and what they ask.
//!
//! A command is a keyword, one space, and a rest. The rest is never empty and
//! holds no line feed. Three families of keywords are tried in a fixed order:
//! dictionary, air quality, knowledge query.

use vstd::prelude::*;
use crate::text::{is_single_line, single_line, starts_with};

verus! {

/// Which pollutant lines an air-quality command asks for.
#[derive(Debug, Clone, PartialEq, Eq)]
pub enum PollutantSelector {
    /// Every pollutant the station reports (`air`).
    All,
    /// The two particulate readings (`pm`).
    PmSummary,
    /// The one pollutant with this code (`pm10`, `pm25`, `o3`, `so2`, `no2`, `co`).
    SingleCode { code: String },
}

/// A parsed chat command.
#[derive(Debug, Clone, PartialEq, Eq)]
pub enum Command {
    Dictionary { query: String },
    AirQuality { pollutant_selector: PollutantSelector, location_query: String },
    KnowledgeQuery { query: String },
}

/// The mathematical value of a [`PollutantSelector`].
pub enum SelectorView {
    All,
    PmSummary,
    SingleCode { code: Seq<char> },
}

/// The mathematical value of a [`Command`].
pub enum CommandView {
    Dictionary { query: Seq<char> },
    AirQuality { pollutant_selector: SelectorView, location_query: Seq<char> },
    KnowledgeQuery { query: Seq<char> },
}

impl View for PollutantSelector {
    type V = SelectorView;

    open spec fn view(&self) -> SelectorView {
        match self {
            PollutantSelector::All => SelectorView::All,
            PollutantSelector::PmSummary => SelectorView::PmSummary,
            PollutantSelector::SingleCode { code } => SelectorView::SingleCode { code: code@ },
        }
    }
}

impl View for Command {
    type V = CommandView;

    open spec fn view(&self) -> CommandView {
        match self {
            Command::Dictionary { query } => CommandView::Dictionary { query: query@ },
            Command::AirQuality { pollutant_selector, location_query } => CommandView::AirQuality {
                pollutant_selector: pollutant_selector@,
                location_query: location_query@,
            },
            Command::KnowledgeQuery { query } => CommandView::KnowledgeQuery { query: query@ },
        }
    }
}

/// Whether `message` is `keyword`, one space, and a non-empty rest on one line.
pub open spec fn has_keyword(message: Seq<char>, keyword: Seq<char>) -> bool {
    let n = keyword.len() as int;
    &&& message.len() > n + 1
    &&& message.subrange(0, n) == keyword
    &&& message[n] == ' '
    &&& is_single_line(message.subrange(n + 1, message.len() as int))
}

/// What follows `keyword` and its space in `message`.
pub open spec fn rest_after(message: Seq<char>, keyword: Seq<char>) -> Seq<char> {
    message.subrange(keyword.len() as int + 1, message.len() as int)
}

/// The keywords of a dictionary lookup.
pub open spec fn dictionary_keywords() -> Seq<Seq<char>> {
    seq!["d"@, "D"@, "dic"@, "Dic"@]
}

/// The keywords of a knowledge query.
pub open spec fn knowledge_keywords() -> Seq<Seq<char>> {
    seq!["w"@, "W"@, "wolfram"@, "Wolfram"@]
}

/// The keywords that name one pollutant. They are lower case only.
pub open spec fn pollutant_codes() -> Seq<Seq<char>> {
    seq!["pm10"@, "pm25"@, "o3"@, "so2"@, "no2"@, "co"@]
}

/// The keywords of an air-quality lookup: the two aggregates, then the codes.
pub open spec fn air_keywords() -> Seq<Seq<char>> {
    seq!["air"@, "pm"@] + pollutant_codes()
}

/// The selector that an air-quality keyword stands for.
pub open spec fn selector_of(keyword: Seq<char>) -> SelectorView {
    if keyword == "air"@ {
        SelectorView::All
    } else if keyword == "pm"@ {
        SelectorView::PmSummary
    } else {
        SelectorView::SingleCode { code: keyword }
    }
}

/// Whether `message` carries one of `keywords`.
pub open spec fn has_any_keyword(message: Seq<char>, keywords: Seq<Seq<char>>) -> bool {
    exists|i: int| 0 <= i < keywords.len() && has_keyword(message, #[trigger] keywords[i])
}

/// The first of `keywords` that `message` carries.
pub open spec fn first_keyword(message: Seq<char>, keywords: Seq<Seq<char>>) -> Option<Seq<char>>
    decreases keywords.len(),
{
    if keywords.len() == 0 {
        None
    } else if has_keyword(message, keywords[0]) {
        Some(keywords[0])
    } else {
        first_keyword(message, keywords.drop_first())
    }
}

/// Whether `message` carries a dictionary keyword.
pub open spec fn matches_dictionary(message: Seq<char>) -> bool {
    has_any_keyword(message, dictionary_keywords())
}

/// Whether `message` carries an air-quality keyword.
pub open spec fn matches_air_quality(message: Seq<char>) -> bool {
    has_any_keyword(message, air_keywords())
}

/// Whether `message` carries a knowledge keyword.
pub open spec fn matches_knowledge(message: Seq<char>) -> bool {
    has_any_keyword(message, knowledge_keywords())
}

/// The command that `message` is, if any. The dictionary keywords are tried
/// first, then the air-quality keywords, then the knowledge keywords.
pub open spec fn classified(message: Seq<char>) -> Option<CommandView> {
    match first_keyword(message, dictionary_keywords()) {
        Some(k) => Some(CommandView::Dictionary { query: rest_after(message, k) }),
        None => match first_keyword(message, air_keywords()) {
            Some(k) => Some(
                CommandView::AirQuality {
                    pollutant_selector: selector_of(k),
                    location_query: rest_after(message, k),
                },
            ),
            None => match first_keyword(message, knowledge_keywords()) {
                Some(k) => Some(CommandView::KnowledgeQuery { query: rest_after(message, k) }),
                None => None,
            },
        },
    }
}

/// `first_keyword` finds a keyword exactly when the message carries one, and
/// the keyword it finds is one of the list that the message carries.
pub proof fn lemma_first_keyword(message: Seq<char>, keywords: Seq<Seq<char>>)
    ensures
        first_keyword(message, keywords) is Some <==> has_any_keyword(message, keywords),
        first_keyword(message, keywords) matches Some(k) ==> has_keyword(message, k)
            && keywords.contains(k),
    decreases keywords.len(),
{
    if keywords.len() == 0 {
    } else if has_keyword(message, keywords[0]) {
        assert(keywords.contains(keywords[0]));
    } else {
        let tail = keywords.drop_first();
        lemma_first_keyword(message, tail);
        if has_any_keyword(message, keywords) {
            let i = choose|i: int| 0 <= i < keywords.len() && has_keyword(message, #[trigger] keywords[i]);
            assert(tail[i - 1] == keywords[i]);
        }
        if has_any_keyword(message, tail) {
            let i = choose|i: int| 0 <= i < tail.len() && has_keyword(message, #[trigger] tail[i]);
            assert(keywords[i + 1] == tail[i]);
        }
        if let Some(k) = first_keyword(message, tail) {
            let i = choose|i: int| 0 <= i < tail.len() && tail[i] == k;
            assert(keywords[i + 1] == k);
        }
    }
}

/// A message that carries a keyword begins with it.
proof fn lemma_keyword_leads(message: Seq<char>, keyword: Seq<char>)
    requires
        has_keyword(message, keyword),
        keyword.len() > 0,
    ensures
        message[0] == keyword[0],
{
    assert(message.subrange(0, keyword.len() as int)[0] == message[0]);
}

/// The three families of keywords exclude each other: no message is a
/// command of two kinds, whatever the order in which the families are tried.
pub proof fn lemma_families_disjoint(message: Seq<char>)
    ensures
        !(matches_dictionary(message) && matches_air_quality(message)),
        !(matches_dictionary(message) && matches_knowledge(message)),
        !(matches_air_quality(message) && matches_knowledge(message)),
{
    reveal_strlit("d");
    reveal_strlit("D");
    reveal_strlit("dic");
    reveal_strlit("Dic");
    reveal_strlit("w");
    reveal_strlit("W");
    reveal_strlit("wolfram");
    reveal_strlit("Wolfram");
    reveal_strlit("air");
    reveal_strlit("pm");
    reveal_strlit("pm10");
    reveal_strlit("pm25");
    reveal_strlit("o3");
    reveal_strlit("so2");
    reveal_strlit("no2");
    reveal_strlit("co");
    if matches_dictionary(message) {
        let ks = dictionary_keywords();
        let i = choose|i: int| 0 <= i < ks.len() && has_keyword(message, #[trigger] ks[i]);
        lemma_keyword_leads(message, ks[i]);
        assert(message[0] == 'd' || message[0] == 'D');
    }
    if matches_knowledge(message) {
        let ks = knowledge_keywords();
        let i = choose|i: int| 0 <= i < ks.len() && has_keyword(message, #[trigger] ks[i]);
        lemma_keyword_leads(message, ks[i]);
        assert(message[0] == 'w' || message[0] == 'W');
    }
    if matches_air_quality(message) {
        let ks = air_keywords();
        let i = choose|i: int| 0 <= i < ks.len() && has_keyword(message, #[trigger] ks[i]);
        lemma_keyword_leads(message, ks[i]);
        assert(message[0] == 'a' || message[0] == 'p' || message[0] == 'o' || message[0] == 's'
            || message[0] == 'n' || message[0] == 'c');
    }
}

/// The rest of `message` after `keyword`, where the message carries it.
pub fn match_keyword(message: &str, keyword: &str) -> (r: Option<String>)
    ensures
        r is Some <==> has_keyword(message@, keyword@),
        r matches Some(rest) ==> rest@ == rest_after(message@, keyword@),
{
    let n = message.unicode_len();
    let k = keyword.unicode_len();
    if k >= n || n - k < 2 {
        return None;
    }
    if !starts_with(message, keyword) {
        return None;
    }
    if message.get_char(k) != ' ' {
        return None;
    }
    let rest = message.substring_char(k + 1, n);
    if !single_line(rest) {
        return None;
    }
    Some(String::from_str(rest))
}

/// The rest after the first of `keywords` that `message` carries, with the
/// position of that keyword in the list.
fn match_first(message: &str, keywords: &Vec<&'static str>) -> (r: Option<(usize, String)>)
    ensures
        match r {
            Some((i, rest)) => {
                &&& i < keywords.len()
                &&& first_keyword(message@, keyword_views(keywords@)) == Some(keywords@[i as int]@)
                &&& rest@ == rest_after(message@, keywords@[i as int]@)
            },
            None => first_keyword(message@, keyword_views(keywords@)) is None,
        },
{
    let mut i: usize = 0;
    assert(keyword_views(keywords@).skip(0) =~= keyword_views(keywords@));
    while i < keywords.len()
        invariant
            i <= keywords.len(),
            first_keyword(message@, keyword_views(keywords@)) == first_keyword(
                message@,
                keyword_views(keywords@).skip(i as int),
            ),
        decreases keywords.len() - i,
    {
        let ghost remaining = keyword_views(keywords@).skip(i as int);
        assert(remaining[0] == keywords@[i as int]@);
        assert(remaining.drop_first() =~= keyword_views(keywords@).skip(i + 1));
        match match_keyword(message, keywords[i]) {
            Some(rest) => {
                return Some((i, rest));
            },
            None => {},
        }
        i = i + 1;
    }
    assert(keyword_views(keywords@).skip(i as int).len() == 0);
    None
}

/// The character sequences of a list of keyword literals.
pub open spec fn keyword_views(v: Seq<&'static str>) -> Seq<Seq<char>> {
    Seq::new(v.len(), |i: int| v[i]@)
}

/// Classifies one chat message.
///
/// Returns the command that the message is, or `None` where it carries none of
/// the keywords. A message that carries no keyword of any family is never a
/// command.
pub fn classify(message: &str) -> (r: Option<Command>)
    ensures
        r matches Some(c) ==> classified(message@) == Some(c@),
        r is None ==> classified(message@) is None,
        r is None <==> !matches_dictionary(message@) && !matches_air_quality(message@)
            && !matches_knowledge(message@),
{
    proof {
        lemma_first_keyword(message@, dictionary_keywords());
        lemma_first_keyword(message@, air_keywords());
        lemma_first_keyword(message@, knowledge_keywords());
    }
    let dictionary: Vec<&'static str> = vec!["d", "D", "dic", "Dic"];
    assert(keyword_views(dictionary@) =~= dictionary_keywords());
    if let Some((_, rest)) = match_first(message, &dictionary) {
        return Some(Command::Dictionary { query: rest });
    }
    let air: Vec<&'static str> = vec!["air", "pm", "pm10", "pm25", "o3", "so2", "no2", "co"];
    assert(keyword_views(air@) =~= air_keywords());
    if let Some((i, rest)) = match_first(message, &air) {
        let pollutant_selector = if i == 0 {
            PollutantSelector::All
        } else if i == 1 {
            PollutantSelector::PmSummary
        } else {
            PollutantSelector::SingleCode { code: String::from_str(air[i]) }
        };
        proof {
            lemma_air_keywords_distinct();
            assert(air_keywords()[i as int] == air@[i as int]@);
        }
        return Some(Command::AirQuality { pollutant_selector, location_query: rest });
    }
    let knowledge: Vec<&'static str> = vec!["w", "W", "wolfram", "Wolfram"];
    assert(keyword_views(knowledge@) =~= knowledge_keywords());
    if let Some((_, rest)) = match_first(message, &knowledge) {
        return Some(Command::KnowledgeQuery { query: rest });
    }
    None
}

/// Only the first air-quality keyword is `air`, and only the second is `pm`.
proof fn lemma_air_keywords_distinct()
    ensures
        forall|i: int| 0 <= i < air_keywords().len() ==> (#[trigger] air_keywords()[i] == "air"@ <==> i == 0),
        forall|i: int| 0 <= i < air_keywords().len() ==> (#[trigger] air_keywords()[i] == "pm"@ <==> i == 1),
{
    reveal_strlit("air");
    reveal_strlit("pm");
    reveal_strlit("pm10");
    reveal_strlit("pm25");
    reveal_strlit("o3");
    reveal_strlit("so2");
    reveal_strlit("no2");
    reveal_strlit("co");
    assert forall|i: int| 0 <= i < air_keywords().len() implies (#[trigger] air_keywords()[i] == "air"@ <==> i == 0) && (air_keywords()[i] == "pm"@ <==> i == 1) by {
        let k = air_keywords()[i];
        if i == 0 {
            assert(k.len() == 3);
        } else if i == 1 {
            assert(k.len() == 2);
            assert(k[0] == 'p');
        } else if i == 2 {
            assert(k.len() == 4);
        } else if i == 3 {
            assert(k.len() == 4);
        } else if i == 4 {
            assert(k[0] == 'o');
        } else if i == 5 {
            assert(k[0] == 's');
        } else if i == 6 {
            assert(k[0] == 'n');
        } else {
            assert(k[0] == 'c');
        }
    }
}

} // verus!
