//! What the bot does with one chat message. The library decides; the caller
//! performs. A message that is no command is passed over in silence. A
//! dictionary or air-quality command is answered on the spot, and a failure
//! there always shows as a placeholder line. A knowledge query is queued and
//! acknowledged at once; its worker answers later.

use vstd::prelude::*;
use crate::bridge::{bridge_stripped, strip_bridge_prefix};
use crate::command::{
    air_keywords,
    classified,
    classify,
    dictionary_keywords,
    knowledge_keywords,
    lemma_first_keyword,
    matches_air_quality,
    matches_dictionary,
    matches_knowledge,
    Command,
    CommandView,
    PollutantSelector,
    SelectorView,
};
use crate::queue::{Job, JobQueue, JobView};
use crate::reply::{dictionary_lines, format_dictionary, DictionaryResult};
use crate::text::{single, texts};

verus! {

/// The line shown where a command was understood but nothing usable came of it.
pub open spec fn placeholder() -> Seq<char> {
    "._."@
}

/// The line that acknowledges a knowledge query.
pub open spec fn acknowledgement() -> Seq<char> {
    "Wolfram|Alpha 검색 중..."@
}

/// `lines`, or the placeholder alone where there are none.
pub open spec fn with_placeholder(lines: Seq<Seq<char>>) -> Seq<Seq<char>> {
    if lines.len() == 0 {
        seq![placeholder()]
    } else {
        lines
    }
}

/// What can go wrong with a message.
#[derive(Debug, Clone, Copy, PartialEq, Eq, Structural)]
pub enum Failure {
    /// The message is no command.
    NoMatch,
    /// A data provider failed.
    ProviderError,
    /// A data provider answered with nothing usable.
    EmptyResult,
    /// The job queue was full.
    QueueFull,
    /// A line could not be sent.
    TransportError,
}

/// How the handling of a message ends.
#[derive(Debug, Clone, PartialEq, Eq)]
pub enum Outcome {
    Silent,
    Replied { lines: Vec<String> },
}

/// The mathematical value of an [`Outcome`].
pub enum OutcomeView {
    Silent,
    Replied { lines: Seq<Seq<char>> },
}

impl View for Outcome {
    type V = OutcomeView;

    open spec fn view(&self) -> OutcomeView {
        match self {
            Outcome::Silent => OutcomeView::Silent,
            Outcome::Replied { lines } => OutcomeView::Replied { lines: texts(lines@) },
        }
    }
}

/// What the caller does after a message has been read.
#[derive(Debug, Clone, PartialEq, Eq)]
pub enum Dispatch {
    /// Nothing is left to look up: send the outcome's lines, if any.
    Finished { outcome: Outcome },
    /// Search the dictionary for `term`, then call `dictionary_reply`.
    LookupDictionary { term: String },
    /// Run an air-quality lookup from `air_start` on.
    LookupAirQuality { pollutant_selector: PollutantSelector, location_query: String },
}

/// The mathematical value of a [`Dispatch`].
pub enum DispatchView {
    Finished { outcome: OutcomeView },
    LookupDictionary { term: Seq<char> },
    LookupAirQuality { pollutant_selector: SelectorView, location_query: Seq<char> },
}

impl View for Dispatch {
    type V = DispatchView;

    open spec fn view(&self) -> DispatchView {
        match self {
            Dispatch::Finished { outcome } => DispatchView::Finished { outcome: outcome@ },
            Dispatch::LookupDictionary { term } => DispatchView::LookupDictionary { term: term@ },
            Dispatch::LookupAirQuality { pollutant_selector, location_query } => {
                DispatchView::LookupAirQuality {
                    pollutant_selector: pollutant_selector@,
                    location_query: location_query@,
                }
            },
        }
    }
}

/// What a failure leads to. A message that is no command is passed over in
/// silence. On the direct path a provider that fails or finds nothing, and a
/// full queue, show as the placeholder. In the knowledge chain the same
/// failures show nothing. A line that cannot be sent ends the reply.
pub open spec fn degraded(failure: Failure, in_chain: bool) -> OutcomeView {
    match failure {
        Failure::NoMatch => OutcomeView::Silent,
        Failure::ProviderError | Failure::EmptyResult => if in_chain {
            OutcomeView::Silent
        } else {
            OutcomeView::Replied { lines: seq![placeholder()] }
        },
        Failure::QueueFull => OutcomeView::Replied { lines: seq![placeholder()] },
        Failure::TransportError => OutcomeView::Silent,
    }
}

/// Turns a failure into the outcome that the user sees; `in_chain` says
/// whether it happened in the knowledge chain rather than on the direct path.
pub fn degrade(failure: Failure, in_chain: bool) -> (r: Outcome)
    ensures
        r@ == degraded(failure, in_chain),
{
    match failure {
        Failure::NoMatch => Outcome::Silent,
        Failure::ProviderError | Failure::EmptyResult => if in_chain {
            Outcome::Silent
        } else {
            Outcome::Replied { lines: placeholder_reply() }
        },
        Failure::QueueFull => Outcome::Replied { lines: placeholder_reply() },
        Failure::TransportError => Outcome::Silent,
    }
}

/// What a message leads to, and the queue after it. A message that is no
/// command ends in silence. A knowledge query joins the queue and is
/// acknowledged, or gets the placeholder where the queue is full. The other
/// commands leave the queue alone and ask for their lookup.
pub open spec fn dispatched(
    channel: Seq<char>,
    text: Seq<char>,
    pending: Seq<JobView>,
    limit: nat,
) -> (DispatchView, Seq<JobView>) {
    match classified(text) {
        None => (DispatchView::Finished { outcome: degraded(Failure::NoMatch, false) }, pending),
        Some(CommandView::Dictionary { query }) => (
            DispatchView::LookupDictionary { term: query },
            pending,
        ),
        Some(CommandView::AirQuality { pollutant_selector, location_query }) => (
            DispatchView::LookupAirQuality { pollutant_selector, location_query },
            pending,
        ),
        Some(CommandView::KnowledgeQuery { query }) => if pending.len() < limit {
            (
                DispatchView::Finished {
                    outcome: OutcomeView::Replied { lines: seq![acknowledgement()] },
                },
                pending.push(JobView { reply_target: channel, query_text: query }),
            )
        } else {
            (DispatchView::Finished { outcome: degraded(Failure::QueueFull, false) }, pending)
        },
    }
}


/// The reply that holds the placeholder alone.
pub fn placeholder_reply() -> (r: Vec<String>)
    ensures
        texts(r@) == seq![placeholder()],
{
    single("._.")
}

/// Makes a reply visible: `lines` as they are, or the placeholder alone
/// where there are none.
pub fn finish_reply(lines: Vec<String>) -> (r: Vec<String>)
    ensures
        texts(r@) == with_placeholder(texts(lines@)),
{
    if lines.len() == 0 {
        placeholder_reply()
    } else {
        lines
    }
}

/// Handles one chat line that arrived on `channel`.
pub fn on_chat_line(channel: &str, text: &str, queue: &mut JobQueue) -> (r: Dispatch)
    requires
        old(queue).well_formed(),
    ensures
        final(queue).well_formed(),
        final(queue).limit() == old(queue).limit(),
        (r@, final(queue).pending()) == dispatched(
            channel@,
            text@,
            old(queue).pending(),
            old(queue).limit(),
        ),
{
    match classify(text) {
        None => Dispatch::Finished { outcome: degrade(Failure::NoMatch, false) },
        Some(Command::Dictionary { query }) => Dispatch::LookupDictionary { term: query },
        Some(Command::AirQuality { pollutant_selector, location_query }) => {
            Dispatch::LookupAirQuality { pollutant_selector, location_query }
        },
        Some(Command::KnowledgeQuery { query }) => {
            let job = Job { reply_target: String::from_str(channel), query_text: query };
            match queue.enqueue(job) {
                Ok(()) => Dispatch::Finished {
                    outcome: Outcome::Replied { lines: single("Wolfram|Alpha 검색 중...") },
                },
                Err(_) => Dispatch::Finished { outcome: degrade(Failure::QueueFull, false) },
            }
        },
    }
}

/// Handles one message as the transport delivers it: the bridge prefix is
/// cut off, and what is left is handled as a chat line.
pub fn process_privmsg(channel: &str, message: &str, queue: &mut JobQueue) -> (r: Dispatch)
    requires
        old(queue).well_formed(),
    ensures
        final(queue).well_formed(),
        final(queue).limit() == old(queue).limit(),
        (r@, final(queue).pending()) == dispatched(
            channel@,
            bridge_stripped(message@),
            old(queue).pending(),
            old(queue).limit(),
        ),
{
    let text = strip_bridge_prefix(message);
    on_chat_line(channel, text.as_str(), queue)
}

/// A message that carries no keyword of any of the three families is no
/// command, and handling it ends in silence with the queue untouched.
pub proof fn lemma_unmatched_is_silent(
    channel: Seq<char>,
    text: Seq<char>,
    pending: Seq<JobView>,
    limit: nat,
)
    requires
        !matches_dictionary(text),
        !matches_air_quality(text),
        !matches_knowledge(text),
    ensures
        classified(text) is None,
        dispatched(channel, text, pending, limit) == (
            DispatchView::Finished { outcome: OutcomeView::Silent },
            pending,
        ),
{
    lemma_first_keyword(text, dictionary_keywords());
    lemma_first_keyword(text, air_keywords());
    lemma_first_keyword(text, knowledge_keywords());
}

/// A knowledge query that meets a full queue leaves the queue as it was and
/// is answered by the placeholder; one that meets a free place is queued
/// last and acknowledged.
pub proof fn lemma_full_queue_rejects(
    channel: Seq<char>,
    text: Seq<char>,
    pending: Seq<JobView>,
    limit: nat,
)
    requires
        classified(text) is Some,
        classified(text)->0 is KnowledgeQuery,
    ensures
        pending.len() >= limit ==> dispatched(channel, text, pending, limit) == (
            DispatchView::Finished { outcome: OutcomeView::Replied { lines: seq![placeholder()] } },
            pending,
        ),
        pending.len() < limit ==> dispatched(channel, text, pending, limit).1.len() == pending.len()
            + 1 && dispatched(channel, text, pending, limit).0 == (DispatchView::Finished {
            outcome: OutcomeView::Replied { lines: seq![acknowledgement()] },
        }),
{
}

/// The reply to a dictionary command once the search is back; `None` stands
/// for a search that failed. The reply is never empty.
pub fn dictionary_reply(found: Option<DictionaryResult>) -> (r: Vec<String>)
    ensures
        texts(r@) == with_placeholder(
            match found {
                Some(result) => dictionary_lines(result@),
                None => Seq::empty(),
            },
        ),
        r@.len() >= 1,
{
    let r = match found {
        Some(result) => finish_reply(format_dictionary(&result)),
        None => placeholder_reply(),
    };
    assert(texts(r@).len() == r@.len());
    r
}

} // verus!
