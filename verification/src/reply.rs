//! The reply formatter: from a typed query result to the chat lines that
//! answer it. Every function here is total and touches nothing but its
//! arguments.

use vstd::prelude::*;
use crate::command::{PollutantSelector, SelectorView};
use crate::text::{join, joined, same_text, texts};

verus! {

/// How bad a pollutant reading is, mildest first. `Ungraded` means that
/// the station gave no grade.
#[derive(Debug, Clone, Copy, PartialEq, Eq, Structural)]
pub enum Grade {
    Ungraded,
    Good,
    Normal,
    Bad,
    Critical,
}

/// One pollutant as a station reports it.
#[derive(Debug, Clone, PartialEq, Eq)]
pub struct PollutantReading {
    /// The code that commands name the pollutant by, such as `pm10`.
    pub code: String,
    /// The name shown to people, such as `PM10`.
    pub name: String,
    pub unit: String,
    /// The samples, oldest first, each as decimal text; `None` is a sensor gap.
    pub samples: Vec<Option<String>>,
    pub grade: Grade,
}

/// What a station reports: its address and one reading per pollutant code.
#[derive(Debug, Clone, PartialEq, Eq)]
pub struct AirStatus {
    pub station_address: String,
    pub pollutants: Vec<PollutantReading>,
}

/// What a dictionary search found.
#[derive(Debug, Clone, PartialEq, Eq)]
pub struct DictionaryResult {
    /// Other spellings that the dictionary proposes.
    pub alternatives: Vec<String>,
    /// The entries, each already laid out as one line.
    pub entries: Vec<String>,
}

/// The answer to a knowledge query, filled in stage by stage. A field is
/// `None` until its stage has succeeded.
#[derive(Debug, Clone, PartialEq, Eq)]
pub struct KnowledgeAnswer {
    pub short_answer: Option<String>,
    pub diagram: Option<Vec<u8>>,
    pub url: Option<String>,
}

/// A query result together with what the formatter needs from the command.
#[derive(Debug, Clone, PartialEq, Eq)]
pub enum Response {
    Dictionary { result: DictionaryResult },
    AirQuality { status: AirStatus, pollutant_selector: PollutantSelector },
    Knowledge { query: String, answer: KnowledgeAnswer },
}

/// The mathematical value of a [`PollutantReading`].
pub struct ReadingView {
    pub code: Seq<char>,
    pub name: Seq<char>,
    pub unit: Seq<char>,
    pub samples: Seq<Option<Seq<char>>>,
    pub grade: Grade,
}

/// The mathematical value of an [`AirStatus`].
pub struct AirStatusView {
    pub station_address: Seq<char>,
    pub pollutants: Seq<ReadingView>,
}

/// The mathematical value of a [`DictionaryResult`].
pub struct DictionaryView {
    pub alternatives: Seq<Seq<char>>,
    pub entries: Seq<Seq<char>>,
}

/// The mathematical value of a [`KnowledgeAnswer`].
pub struct KnowledgeView {
    pub short_answer: Option<Seq<char>>,
    pub diagram: Option<Seq<u8>>,
    pub url: Option<Seq<char>>,
}

/// The mathematical value of a [`Response`].
pub enum ResponseView {
    Dictionary { result: DictionaryView },
    AirQuality { status: AirStatusView, pollutant_selector: SelectorView },
    Knowledge { query: Seq<char>, answer: KnowledgeView },
}

/// The value of an optional string.
pub open spec fn text_of(s: Option<String>) -> Option<Seq<char>> {
    match s {
        Some(t) => Some(t@),
        None => None,
    }
}

/// The values of a list of samples.
pub open spec fn sample_views(v: Seq<Option<String>>) -> Seq<Option<Seq<char>>> {
    Seq::new(v.len(), |i: int| text_of(v[i]))
}

/// The values of a list of readings.
pub open spec fn reading_views(v: Seq<PollutantReading>) -> Seq<ReadingView> {
    Seq::new(v.len(), |i: int| v[i]@)
}

impl View for PollutantReading {
    type V = ReadingView;

    open spec fn view(&self) -> ReadingView {
        ReadingView {
            code: self.code@,
            name: self.name@,
            unit: self.unit@,
            samples: sample_views(self.samples@),
            grade: self.grade,
        }
    }
}

impl View for AirStatus {
    type V = AirStatusView;

    open spec fn view(&self) -> AirStatusView {
        AirStatusView {
            station_address: self.station_address@,
            pollutants: reading_views(self.pollutants@),
        }
    }
}

impl View for DictionaryResult {
    type V = DictionaryView;

    open spec fn view(&self) -> DictionaryView {
        DictionaryView { alternatives: texts(self.alternatives@), entries: texts(self.entries@) }
    }
}

impl View for KnowledgeAnswer {
    type V = KnowledgeView;

    open spec fn view(&self) -> KnowledgeView {
        KnowledgeView {
            short_answer: text_of(self.short_answer),
            diagram: match self.diagram {
                Some(d) => Some(d@),
                None => None,
            },
            url: text_of(self.url),
        }
    }
}

impl View for Response {
    type V = ResponseView;

    open spec fn view(&self) -> ResponseView {
        match self {
            Response::Dictionary { result } => ResponseView::Dictionary { result: result@ },
            Response::AirQuality { status, pollutant_selector } => ResponseView::AirQuality {
                status: status@,
                pollutant_selector: pollutant_selector@,
            },
            Response::Knowledge { query, answer } => ResponseView::Knowledge {
                query: query@,
                answer: answer@,
            },
        }
    }
}

/// The rank of a grade, from 0 for `Ungraded` to 4 for `Critical`.
pub open spec fn severity(grade: Grade) -> nat {
    match grade {
        Grade::Ungraded => 0,
        Grade::Good => 1,
        Grade::Normal => 2,
        Grade::Bad => 3,
        Grade::Critical => 4,
    }
}

/// The label that a grade is shown with.
pub open spec fn grade_label(grade: Grade) -> Seq<char> {
    match grade {
        Grade::Ungraded => "정보없음"@,
        Grade::Good => "좋음"@,
        Grade::Normal => "보통"@,
        Grade::Bad => "나쁨"@,
        Grade::Critical => "매우나쁨"@,
    }
}

/// What one sample is shown as: its text, or nothing for a gap.
pub open spec fn sample_token(sample: Option<Seq<char>>) -> Seq<char> {
    match sample {
        Some(t) => t,
        None => Seq::empty(),
    }
}

/// The tokens of a series, in the order of the samples.
pub open spec fn sample_tokens(samples: Seq<Option<Seq<char>>>) -> Seq<Seq<char>> {
    Seq::new(samples.len(), |i: int| sample_token(samples[i]))
}

/// A series as shown: the tokens, oldest first, with an arrow between them.
pub open spec fn series_text(samples: Seq<Option<Seq<char>>>) -> Seq<char> {
    joined(sample_tokens(samples), " → "@)
}

/// The line of one pollutant: `name (unit): series (label)`.
pub open spec fn pollutant_line(reading: ReadingView) -> Seq<char> {
    reading.name + " ("@ + reading.unit + "): "@ + series_text(reading.samples) + " ("@
        + grade_label(reading.grade) + ")"@
}

/// The first line of an air-quality reply.
pub open spec fn station_line(address: Seq<char>) -> Seq<char> {
    "station: "@ + address
}

/// The first reading that has `code`, if any.
pub open spec fn find_code(pollutants: Seq<ReadingView>, code: Seq<char>) -> Option<ReadingView>
    decreases pollutants.len(),
{
    if pollutants.len() == 0 {
        None
    } else if pollutants[0].code == code {
        Some(pollutants[0])
    } else {
        find_code(pollutants.drop_first(), code)
    }
}

/// The readings that a selector picks, in the station's order.
pub open spec fn selected(pollutants: Seq<ReadingView>, selector: SelectorView) -> Seq<ReadingView> {
    match selector {
        SelectorView::All => pollutants,
        SelectorView::PmSummary => if pollutants.len() > 2 {
            pollutants.take(2)
        } else {
            pollutants
        },
        SelectorView::SingleCode { code } => match find_code(pollutants, code) {
            Some(reading) => seq![reading],
            None => Seq::empty(),
        },
    }
}

/// The lines of the given readings.
pub open spec fn pollutant_lines(readings: Seq<ReadingView>) -> Seq<Seq<char>> {
    Seq::new(readings.len(), |i: int| pollutant_line(readings[i]))
}

/// An air-quality reply: the station line, then the selected pollutants.
pub open spec fn air_lines(status: AirStatusView, selector: SelectorView) -> Seq<Seq<char>> {
    seq![station_line(status.station_address)] + pollutant_lines(
        selected(status.pollutants, selector),
    )
}

/// `entries` without the empty ones, order kept.
pub open spec fn without_blanks(entries: Seq<Seq<char>>) -> Seq<Seq<char>>
    decreases entries.len(),
{
    if entries.len() == 0 {
        Seq::empty()
    } else if entries.last().len() == 0 {
        without_blanks(entries.drop_last())
    } else {
        without_blanks(entries.drop_last()).push(entries.last())
    }
}

/// A dictionary reply: the alternatives on one line where there are any,
/// else the entries that are not blank, one line each.
pub open spec fn dictionary_lines(result: DictionaryView) -> Seq<Seq<char>> {
    if result.alternatives.len() > 0 {
        seq![joined(result.alternatives, ", "@)]
    } else {
        without_blanks(result.entries)
    }
}

/// A knowledge reply: `query ⇒ answer url` where both the short answer and
/// the hosted diagram are there, else nothing.
pub open spec fn knowledge_lines(query: Seq<char>, answer: KnowledgeView) -> Seq<Seq<char>> {
    match (answer.short_answer, answer.url) {
        (Some(short), Some(url)) => seq![query + " ⇒ "@ + short + " "@ + url],
        _ => Seq::empty(),
    }
}

/// The lines of any response.
pub open spec fn response_lines(response: ResponseView) -> Seq<Seq<char>> {
    match response {
        ResponseView::Dictionary { result } => dictionary_lines(result),
        ResponseView::AirQuality { status, pollutant_selector } => air_lines(
            status,
            pollutant_selector,
        ),
        ResponseView::Knowledge { query, answer } => knowledge_lines(query, answer),
    }
}

impl Grade {
    /// The rank of the grade, from 0 for `Ungraded` to 4 for `Critical`.
    pub fn severity(&self) -> (r: u8)
        ensures
            r == severity(*self),
    {
        match self {
            Grade::Ungraded => 0,
            Grade::Good => 1,
            Grade::Normal => 2,
            Grade::Bad => 3,
            Grade::Critical => 4,
        }
    }

    /// Whether this grade is more severe than `other`.
    pub fn is_worse_than(&self, other: Grade) -> (r: bool)
        ensures
            r == (severity(*self) > severity(other)),
    {
        self.severity() > other.severity()
    }

    /// The label that the grade is shown with.
    pub fn label(&self) -> (r: &'static str)
        ensures
            r@ == grade_label(*self),
    {
        match self {
            Grade::Ungraded => "정보없음",
            Grade::Good => "좋음",
            Grade::Normal => "보통",
            Grade::Bad => "나쁨",
            Grade::Critical => "매우나쁨",
        }
    }
}

/// The code by which commands name the pollutant that stations call `name`:
/// the station's name in lower case and without its dot. A name that no
/// command code belongs to stands for itself.
pub open spec fn code_of(name: Seq<char>) -> Seq<char> {
    if name == "PM10"@ {
        "pm10"@
    } else if name == "PM2.5"@ {
        "pm25"@
    } else if name == "O3"@ {
        "o3"@
    } else if name == "SO2"@ {
        "so2"@
    } else if name == "NO2"@ {
        "no2"@
    } else if name == "CO"@ {
        "co"@
    } else {
        name
    }
}

/// The code by which commands name the pollutant that stations call `name`.
pub fn pollutant_code(name: &str) -> (r: String)
    ensures
        r@ == code_of(name@),
{
    if same_text(name, "PM10") {
        String::from_str("pm10")
    } else if same_text(name, "PM2.5") {
        String::from_str("pm25")
    } else if same_text(name, "O3") {
        String::from_str("o3")
    } else if same_text(name, "SO2") {
        String::from_str("so2")
    } else if same_text(name, "NO2") {
        String::from_str("no2")
    } else if same_text(name, "CO") {
        String::from_str("co")
    } else {
        String::from_str(name)
    }
}

impl PollutantReading {
    /// A reading as a station reports it, filed under the code of its name.
    pub fn from_station(name: String, unit: String, samples: Vec<Option<String>>, grade: Grade) -> (r:
        PollutantReading)
        ensures
            r@ == (ReadingView {
                code: code_of(name@),
                name: name@,
                unit: unit@,
                samples: sample_views(samples@),
                grade,
            }),
    {
        let code = pollutant_code(name.as_str());
        PollutantReading { code, name, unit, samples, grade }
    }
}

/// Lays out a series of samples, oldest first, with an arrow between them.
pub fn format_series(samples: &Vec<Option<String>>) -> (r: String)
    ensures
        r@ == series_text(sample_views(samples@)),
{
    let mut tokens: Vec<String> = Vec::new();
    let mut i: usize = 0;
    while i < samples.len()
        invariant
            i <= samples.len(),
            tokens@.len() == i,
            forall|j: int| 0 <= j < i ==> tokens@[j]@ == sample_token(text_of(samples@[j])),
        decreases samples.len() - i,
    {
        let token = match &samples[i] {
            Some(t) => t.clone(),
            None => String::new(),
        };
        tokens.push(token);
        i = i + 1;
    }
    assert(texts(tokens@) =~= sample_tokens(sample_views(samples@)));
    join(&tokens, " → ")
}

/// Lays out one pollutant as `name (unit): series (label)`.
pub fn format_pollutant(reading: &PollutantReading) -> (r: String)
    ensures
        r@ == pollutant_line(reading@),
{
    let series = format_series(&reading.samples);
    let mut out = reading.name.clone();
    out.append(" (");
    out.append(reading.unit.as_str());
    out.append("): ");
    out.append(series.as_str());
    out.append(" (");
    out.append(reading.grade.label());
    out.append(")");
    out
}

/// The position of the first reading that has `code`.
pub fn position_of_code(pollutants: &Vec<PollutantReading>, code: &str) -> (r: Option<usize>)
    ensures
        match r {
            Some(i) => i < pollutants.len() && find_code(reading_views(pollutants@), code@) == Some(
                pollutants@[i as int]@,
            ),
            None => find_code(reading_views(pollutants@), code@) is None,
        },
{
    let ghost all = reading_views(pollutants@);
    let mut i: usize = 0;
    assert(all.skip(0) =~= all);
    while i < pollutants.len()
        invariant
            i <= pollutants.len(),
            all == reading_views(pollutants@),
            find_code(all, code@) == find_code(all.skip(i as int), code@),
        decreases pollutants.len() - i,
    {
        assert(all.skip(i as int)[0] == pollutants@[i as int]@);
        assert(all.skip(i as int).drop_first() =~= all.skip(i + 1));
        if same_text(pollutants[i].code.as_str(), code) {
            return Some(i);
        }
        i = i + 1;
    }
    None
}

/// Lays out an air-quality reply: the station line, then the pollutants that
/// the selector picks. `PmSummary` never shows more than the first two
/// readings; `SingleCode` shows the reading with that code, or none.
pub fn format_air_quality(status: &AirStatus, selector: &PollutantSelector) -> (r: Vec<String>)
    ensures
        texts(r@) == air_lines(status@, selector@),
        r@.len() >= 1,
        r@[0]@ == station_line(status.station_address@),
        selector is PmSummary ==> r@.len() <= 3,
{
    let mut lines: Vec<String> = Vec::new();
    let mut first = String::from_str("station: ");
    first.append(status.station_address.as_str());
    lines.push(first);
    let ghost chosen = selected(status@.pollutants, selector@);
    match selector {
        PollutantSelector::SingleCode { code } => {
            match position_of_code(&status.pollutants, code.as_str()) {
                Some(i) => {
                    lines.push(format_pollutant(&status.pollutants[i]));
                },
                None => {},
            }
        },
        _ => {
            let limit: usize = match selector {
                PollutantSelector::PmSummary => if status.pollutants.len() > 2 {
                    2
                } else {
                    status.pollutants.len()
                },
                _ => status.pollutants.len(),
            };
            let mut i: usize = 0;
            while i < limit
                invariant
                    i <= limit <= status.pollutants.len(),
                    chosen.len() == limit,
                    forall|j: int| 0 <= j < limit ==> chosen[j] == status.pollutants@[j]@,
                    lines@.len() == i + 1,
                    lines@[0]@ == station_line(status@.station_address),
                    forall|j: int| 0 <= j < i ==> lines@[j + 1]@ == pollutant_line(chosen[j]),
                decreases limit - i,
            {
                lines.push(format_pollutant(&status.pollutants[i]));
                i = i + 1;
            }
        },
    }
    assert(texts(lines@) =~= air_lines(status@, selector@));
    lines
}

/// Lays out a dictionary reply. Where the dictionary proposes other
/// spellings, the reply is one line that holds them all, comma-separated,
/// whatever the entries are. Otherwise it is the entries that are not blank,
/// in the dictionary's order.
pub fn format_dictionary(result: &DictionaryResult) -> (r: Vec<String>)
    ensures
        texts(r@) == dictionary_lines(result@),
        result.alternatives@.len() > 0 ==> r@.len() == 1 && r@[0]@ == joined(
            texts(result.alternatives@),
            ", "@,
        ),
{
    let mut lines: Vec<String> = Vec::new();
    if result.alternatives.len() > 0 {
        lines.push(join(&result.alternatives, ", "));
        assert(texts(lines@) =~= dictionary_lines(result@));
        return lines;
    }
    let ghost all = texts(result.entries@);
    let mut i: usize = 0;
    while i < result.entries.len()
        invariant
            i <= result.entries.len(),
            all == texts(result.entries@),
            texts(lines@) == without_blanks(all.take(i as int)),
        decreases result.entries.len() - i,
    {
        proof {
            assert(all.take(i + 1).drop_last() =~= all.take(i as int));
            assert(all.take(i + 1).last() == result.entries@[i as int]@);
        }
        let ghost before = texts(lines@);
        if !result.entries[i].as_str().is_empty() {
            lines.push(result.entries[i].clone());
            assert(texts(lines@) =~= before.push(result.entries@[i as int]@));
        }
        i = i + 1;
    }
    assert(all.take(result.entries.len() as int) =~= all);
    lines
}

/// Lays out a knowledge reply: one line `query ⇒ answer url` where the answer
/// has both its short text and its hosted diagram, else no line at all. Half
/// an answer is never shown.
pub fn format_knowledge(query: &str, answer: &KnowledgeAnswer) -> (r: Vec<String>)
    ensures
        texts(r@) == knowledge_lines(query@, answer@),
{
    let mut lines: Vec<String> = Vec::new();
    match (&answer.short_answer, &answer.url) {
        (Some(short), Some(url)) => {
            let mut line = String::from_str(query);
            line.append(" ⇒ ");
            line.append(short.as_str());
            line.append(" ");
            line.append(url.as_str());
            lines.push(line);
        },
        _ => {},
    }
    assert(texts(lines@) =~= knowledge_lines(query@, answer@));
    lines
}

/// Lays out any response as chat lines, in the order they are to be sent.
pub fn format_response(response: &Response) -> (r: Vec<String>)
    ensures
        texts(r@) == response_lines(response@),
{
    match response {
        Response::Dictionary { result } => format_dictionary(result),
        Response::AirQuality { status, pollutant_selector } => format_air_quality(
            status,
            pollutant_selector,
        ),
        Response::Knowledge { query, answer } => format_knowledge(query.as_str(), answer),
    }
}

/// Whether `part` stands somewhere inside `whole`, unbroken.
pub open spec fn occurs_in(part: Seq<char>, whole: Seq<char>) -> bool {
    exists|k: int|
        0 <= k && k + part.len() <= whole.len() && #[trigger] whole.subrange(
            k,
            k + part.len(),
        ) == part
}

/// Every part of a joined text stands in it unbroken.
pub proof fn lemma_joined_holds_each(parts: Seq<Seq<char>>, sep: Seq<char>, i: int)
    requires
        0 <= i < parts.len(),
    ensures
        occurs_in(parts[i], joined(parts, sep)),
    decreases parts.len(),
{
    let whole = joined(parts, sep);
    if parts.len() == 1 {
        assert(whole.subrange(0int, 0int + parts[i].len()) =~= parts[i]);
    } else {
        let head = joined(parts.drop_last(), sep);
        if i == parts.len() - 1 {
            let k = (head + sep).len() as int;
            assert(whole.subrange(k, k + parts[i].len()) =~= parts[i]);
        } else {
            lemma_joined_holds_each(parts.drop_last(), sep, i);
            let part = parts.drop_last()[i];
            let k = choose|k: int|
                0 <= k && k + part.len() <= head.len() && #[trigger] head.subrange(
                    k,
                    k + part.len(),
                ) == part;
            assert(whole.subrange(k, k + part.len()) =~= head.subrange(k, k + part.len()));
        }
    }
}

/// A dictionary result with at least one alternative spelling is answered by
/// exactly one line: the alternatives joined by a comma and a space. Each
/// alternative stands in that line, and the entries play no part in it.
pub proof fn lemma_alternatives_make_one_line(result: DictionaryView, other_entries: Seq<Seq<char>>)
    requires
        result.alternatives.len() > 0,
    ensures
        dictionary_lines(result) == seq![joined(result.alternatives, ", "@)],
        dictionary_lines(result).len() == 1,
        forall|i: int|
            0 <= i < result.alternatives.len() ==> occurs_in(
                #[trigger] result.alternatives[i],
                dictionary_lines(result)[0],
            ),
        dictionary_lines(
            DictionaryView { alternatives: result.alternatives, entries: other_entries },
        ) == dictionary_lines(result),
{
    assert forall|i: int| 0 <= i < result.alternatives.len() implies occurs_in(
        #[trigger] result.alternatives[i],
        dictionary_lines(result)[0],
    ) by {
        lemma_joined_holds_each(result.alternatives, ", "@, i);
    }
}

/// Where no reading has `code`, `find_code` finds none.
pub proof fn lemma_find_code_absent(pollutants: Seq<ReadingView>, code: Seq<char>)
    requires
        forall|i: int| 0 <= i < pollutants.len() ==> (#[trigger] pollutants[i]).code != code,
    ensures
        find_code(pollutants, code) is None,
    decreases pollutants.len(),
{
    if pollutants.len() > 0 {
        let tail = pollutants.drop_first();
        assert forall|i: int| 0 <= i < tail.len() implies (#[trigger] tail[i]).code != code by {
            assert(tail[i] == pollutants[i + 1]);
        }
        lemma_find_code_absent(tail, code);
    }
}

/// A command for one pollutant code that the station does not report is
/// answered by the station line alone.
pub proof fn lemma_absent_code_shows_station_only(status: AirStatusView, code: Seq<char>)
    requires
        forall|i: int|
            0 <= i < status.pollutants.len() ==> (#[trigger] status.pollutants[i]).code != code,
    ensures
        air_lines(status, SelectorView::SingleCode { code }) == seq![
            station_line(status.station_address),
        ],
{
    lemma_find_code_absent(status.pollutants, code);
    assert(air_lines(status, SelectorView::SingleCode { code }) =~= seq![
        station_line(status.station_address),
    ]);
}

/// The particulate summary never shows more than two pollutant lines, however
/// many readings the station reports, and they are the first ones reported.
pub proof fn lemma_pm_summary_shows_at_most_two(status: AirStatusView)
    ensures
        selected(status.pollutants, SelectorView::PmSummary).len() <= 2,
        air_lines(status, SelectorView::PmSummary).len() <= 3,
        air_lines(status, SelectorView::PmSummary)[0] == station_line(status.station_address),
        forall|i: int|
            0 <= i < selected(status.pollutants, SelectorView::PmSummary).len() ==> air_lines(
                status,
                SelectorView::PmSummary,
            )[i + 1] == pollutant_line(#[trigger] status.pollutants[i]),
{
}

/// What is left of the entries holds no blank line, and every line of it is
/// one of the entries.
pub proof fn lemma_without_blanks(entries: Seq<Seq<char>>)
    ensures
        without_blanks(entries).len() <= entries.len(),
        forall|i: int|
            0 <= i < without_blanks(entries).len() ==> (#[trigger] without_blanks(entries)[i]).len()
                > 0 && entries.contains(without_blanks(entries)[i]),
        (forall|i: int| 0 <= i < entries.len() ==> (#[trigger] entries[i]).len() > 0)
            ==> without_blanks(entries) == entries,
    decreases entries.len(),
{
    if entries.len() > 0 {
        let head = entries.drop_last();
        lemma_without_blanks(head);
        let kept = without_blanks(head);
        let out = without_blanks(entries);
        assert forall|i: int| 0 <= i < out.len() implies (#[trigger] out[i]).len() > 0
            && entries.contains(out[i]) by {
            if i < kept.len() {
                assert(out[i] == kept[i]);
                let j = choose|j: int| 0 <= j < head.len() && head[j] == kept[i];
                assert(entries[j] == kept[i]);
            } else {
                assert(entries[entries.len() - 1] == out[i]);
            }
        }
        if forall|i: int| 0 <= i < entries.len() ==> (#[trigger] entries[i]).len() > 0 {
            assert forall|i: int| 0 <= i < head.len() implies (#[trigger] head[i]).len() > 0 by {
                assert(head[i] == entries[i]);
            }
            assert(kept == head);
            assert(out =~= entries);
        }
    }
}

} // verus!
