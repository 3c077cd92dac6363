//! The knowledge chain: what the worker of the job queue does with one
//! query. The short answer and the diagram are fetched side by side, the
//! diagram is uploaded, and the answer goes out as a reply of its own. Where
//! any stage fails, nothing more is sent.

use vstd::prelude::*;
use crate::encode::{encode, encoded};
use crate::queue::{Job, JobQueue, JobView};
use crate::reply::{format_knowledge, knowledge_lines, text_of, KnowledgeAnswer, KnowledgeView};
use crate::text::texts;

verus! {

/// Where the worker stands with one knowledge query.
#[derive(Debug, Clone, Copy, PartialEq, Eq, Structural)]
pub enum ChainStage {
    /// The short answer and the diagram are being fetched, side by side.
    Fetching,
    /// Both are there; the diagram is being uploaded.
    Uploading,
    Finished,
}

/// One knowledge query in the worker's hands.
#[derive(Debug, Clone, PartialEq, Eq)]
pub struct Chain {
    pub job: Job,
    /// What has arrived so far.
    pub answer: KnowledgeAnswer,
    pub stage: ChainStage,
}

/// The mathematical value of a [`Chain`].
pub struct ChainView {
    pub job: JobView,
    pub answer: KnowledgeView,
    pub stage: ChainStage,
}

impl View for Chain {
    type V = ChainView;

    open spec fn view(&self) -> ChainView {
        ChainView { job: self.job@, answer: self.answer@, stage: self.stage }
    }
}

/// What came back from a step of the chain. `None` stands for a step that
/// failed.
#[derive(Debug, Clone, PartialEq, Eq)]
pub enum ChainEvent {
    ShortAnswer { text: Option<String> },
    Diagram { bytes: Option<Vec<u8>> },
    Uploaded { url: Option<String> },
}

/// The mathematical value of a [`ChainEvent`].
pub enum ChainEventView {
    ShortAnswer { text: Option<Seq<char>> },
    Diagram { bytes: Option<Seq<u8>> },
    Uploaded { url: Option<Seq<char>> },
}

impl View for ChainEvent {
    type V = ChainEventView;

    open spec fn view(&self) -> ChainEventView {
        match self {
            ChainEvent::ShortAnswer { text } => ChainEventView::ShortAnswer { text: text_of(*text) },
            ChainEvent::Diagram { bytes } => ChainEventView::Diagram {
                bytes: match bytes {
                    Some(b) => Some(b@),
                    None => None,
                },
            },
            ChainEvent::Uploaded { url } => ChainEventView::Uploaded { url: text_of(*url) },
        }
    }
}

/// What the worker does next.
#[derive(Debug, Clone, PartialEq, Eq)]
pub enum ChainAction {
    /// Nothing now: wait for what is still under way, if anything is.
    Idle,
    /// Upload the diagram, given here in Base64, under `title`.
    Upload { payload: String, title: String },
    /// Send `lines` to `target` as a reply of their own.
    Send { target: String, lines: Vec<String> },
    /// The query has failed: send nothing.
    GiveUp,
}

/// The mathematical value of a [`ChainAction`].
pub enum ChainActionView {
    Idle,
    Upload { payload: Seq<char>, title: Seq<char> },
    Send { target: Seq<char>, lines: Seq<Seq<char>> },
    GiveUp,
}

impl View for ChainAction {
    type V = ChainActionView;

    open spec fn view(&self) -> ChainActionView {
        match self {
            ChainAction::Idle => ChainActionView::Idle,
            ChainAction::Upload { payload, title } => ChainActionView::Upload {
                payload: payload@,
                title: title@,
            },
            ChainAction::Send { target, lines } => ChainActionView::Send {
                target: target@,
                lines: texts(lines@),
            },
            ChainAction::GiveUp => ChainActionView::GiveUp,
        }
    }
}

/// A chain as it begins: nothing has arrived.
pub open spec fn chain_begun(job: JobView) -> ChainView {
    ChainView {
        job,
        answer: KnowledgeView { short_answer: None, diagram: None, url: None },
        stage: ChainStage::Fetching,
    }
}

/// The chain once both fetches are in: the upload of the diagram begins.
pub open spec fn upload_begun(chain: ChainView, answer: KnowledgeView) -> (ChainView, ChainActionView) {
    (
        ChainView { job: chain.job, answer, stage: ChainStage::Uploading },
        ChainActionView::Upload {
            payload: encoded(answer.diagram->0),
            title: chain.job.query_text,
        },
    )
}

/// The chain once a fetch has arrived: the upload begins where the other
/// fetch is in too, else the worker waits for it.
pub open spec fn fetch_arrived(chain: ChainView, answer: KnowledgeView) -> (ChainView, ChainActionView) {
    if answer.short_answer is Some && answer.diagram is Some {
        upload_begun(chain, answer)
    } else {
        (ChainView { job: chain.job, answer, stage: ChainStage::Fetching }, ChainActionView::Idle)
    }
}

/// The chain once it has failed.
pub open spec fn given_up(chain: ChainView) -> (ChainView, ChainActionView) {
    (
        ChainView { job: chain.job, answer: chain.answer, stage: ChainStage::Finished },
        ChainActionView::GiveUp,
    )
}

/// The step of the knowledge chain. The two fetches may arrive in either
/// order; the upload begins when both are in. A failed fetch or a failed
/// upload ends the chain without a word. A successful upload ends it with the
/// one reply line, sent to the channel the query came from. What arrives out
/// of turn changes nothing.
pub open spec fn chain_next(chain: ChainView, event: ChainEventView) -> (ChainView, ChainActionView) {
    let unchanged = (chain, ChainActionView::Idle);
    match chain.stage {
        ChainStage::Fetching => match event {
            ChainEventView::ShortAnswer { text: Some(t) } => fetch_arrived(
                chain,
                KnowledgeView {
                    short_answer: Some(t),
                    diagram: chain.answer.diagram,
                    url: chain.answer.url,
                },
            ),
            ChainEventView::Diagram { bytes: Some(b) } => fetch_arrived(
                chain,
                KnowledgeView {
                    short_answer: chain.answer.short_answer,
                    diagram: Some(b),
                    url: chain.answer.url,
                },
            ),
            ChainEventView::ShortAnswer { text: None } => given_up(chain),
            ChainEventView::Diagram { bytes: None } => given_up(chain),
            ChainEventView::Uploaded { url } => unchanged,
        },
        ChainStage::Uploading => match event {
            ChainEventView::Uploaded { url: Some(u) } => {
                let answer = KnowledgeView {
                    short_answer: chain.answer.short_answer,
                    diagram: chain.answer.diagram,
                    url: Some(u),
                };
                let lines = knowledge_lines(chain.job.query_text, answer);
                (
                    ChainView { job: chain.job, answer, stage: ChainStage::Finished },
                    if lines.len() > 0 {
                        ChainActionView::Send { target: chain.job.reply_target, lines }
                    } else {
                        ChainActionView::GiveUp
                    },
                )
            },
            ChainEventView::Uploaded { url: None } => given_up(chain),
            _ => unchanged,
        },
        ChainStage::Finished => unchanged,
    }
}

/// Begins the chain of `job`: the caller fetches the short answer and the
/// diagram for the job's query, side by side.
pub fn chain_start(job: Job) -> (r: Chain)
    ensures
        r@ == chain_begun(job@),
{
    Chain {
        job,
        answer: KnowledgeAnswer { short_answer: None, diagram: None, url: None },
        stage: ChainStage::Fetching,
    }
}

/// Takes the oldest waiting job and begins its chain. The worker calls this
/// only when its last chain has finished, so one chain runs at a time.
pub fn next_chain(queue: &mut JobQueue) -> (r: Option<Chain>)
    requires
        old(queue).well_formed(),
    ensures
        final(queue).well_formed(),
        final(queue).limit() == old(queue).limit(),
        r is Some <==> old(queue).pending().len() > 0,
        r is None ==> final(queue).pending() == old(queue).pending(),
        r matches Some(chain) ==> chain@ == chain_begun(old(queue).pending()[0]),
        r is Some ==> final(queue).pending() == old(queue).pending().drop_first(),
{
    match queue.dequeue() {
        Some(job) => Some(chain_start(job)),
        None => None,
    }
}

/// After a fetch has arrived: begins the upload where both fetches are in.
fn after_fetch(job: Job, answer: KnowledgeAnswer) -> (r: (Chain, ChainAction))
    ensures
        (r.0@, r.1@) == fetch_arrived(
            ChainView { job: job@, answer: answer@, stage: ChainStage::Fetching },
            answer@,
        ),
{
    let action = match (&answer.short_answer, &answer.diagram) {
        (Some(_), Some(bytes)) => Some(
            ChainAction::Upload { payload: encode(bytes), title: job.query_text.clone() },
        ),
        _ => None,
    };
    match action {
        Some(upload) => (Chain { job, answer, stage: ChainStage::Uploading }, upload),
        None => (Chain { job, answer, stage: ChainStage::Fetching }, ChainAction::Idle),
    }
}

/// Takes the knowledge chain one step on.
pub fn chain_step(chain: Chain, event: ChainEvent) -> (r: (Chain, ChainAction))
    ensures
        (r.0@, r.1@) == chain_next(chain@, event@),
{
    let Chain { job, answer, stage } = chain;
    let KnowledgeAnswer { short_answer, diagram, url } = answer;
    match stage {
        ChainStage::Fetching => match event {
            ChainEvent::ShortAnswer { text: Some(t) } => after_fetch(
                job,
                KnowledgeAnswer { short_answer: Some(t), diagram, url },
            ),
            ChainEvent::Diagram { bytes: Some(b) } => after_fetch(
                job,
                KnowledgeAnswer { short_answer, diagram: Some(b), url },
            ),
            ChainEvent::Uploaded { url: _ } => (
                Chain { job, answer: KnowledgeAnswer { short_answer, diagram, url }, stage },
                ChainAction::Idle,
            ),
            _ => (
                Chain {
                    job,
                    answer: KnowledgeAnswer { short_answer, diagram, url },
                    stage: ChainStage::Finished,
                },
                ChainAction::GiveUp,
            ),
        },
        ChainStage::Uploading => match event {
            ChainEvent::Uploaded { url: Some(u) } => {
                let answer = KnowledgeAnswer { short_answer, diagram, url: Some(u) };
                let lines = format_knowledge(job.query_text.as_str(), &answer);
                let action = if lines.len() > 0 {
                    ChainAction::Send { target: job.reply_target.clone(), lines }
                } else {
                    ChainAction::GiveUp
                };
                assert(texts(lines@).len() == lines@.len());
                (Chain { job, answer, stage: ChainStage::Finished }, action)
            },
            ChainEvent::Uploaded { url: None } => (
                Chain {
                    job,
                    answer: KnowledgeAnswer { short_answer, diagram, url },
                    stage: ChainStage::Finished,
                },
                ChainAction::GiveUp,
            ),
            _ => (
                Chain { job, answer: KnowledgeAnswer { short_answer, diagram, url }, stage },
                ChainAction::Idle,
            ),
        },
        ChainStage::Finished => (
            Chain { job, answer: KnowledgeAnswer { short_answer, diagram, url }, stage },
            ChainAction::Idle,
        ),
    }
}

/// The worker of the knowledge queue. It holds one chain at most, so the
/// jobs are worked off one at a time, in the order they came.
pub struct Worker {
    current: Option<Chain>,
}

impl Worker {
    /// The chain in the worker's hands, if it has taken one.
    pub closed spec fn chain(&self) -> Option<ChainView> {
        match self.current {
            Some(c) => Some(c@),
            None => None,
        }
    }

    /// Whether a chain is under way.
    pub open spec fn busy(&self) -> bool {
        self.chain() matches Some(c) && c.stage != ChainStage::Finished
    }

    /// A worker with nothing in its hands.
    pub fn new() -> (r: Worker)
        ensures
            r.chain() is None,
    {
        Worker { current: None }
    }

    /// Whether a chain is under way.
    pub fn is_busy(&self) -> (r: bool)
        ensures
            r == self.busy(),
    {
        match &self.current {
            Some(c) => match c.stage {
                ChainStage::Finished => false,
                _ => true,
            },
            None => false,
        }
    }

    /// Takes the oldest waiting job, unless a chain is under way, and gives
    /// the query whose short answer and diagram are to be fetched. A busy
    /// worker leaves the queue alone.
    pub fn begin(&mut self, queue: &mut JobQueue) -> (r: Option<String>)
        requires
            old(queue).well_formed(),
        ensures
            final(queue).well_formed(),
            final(queue).limit() == old(queue).limit(),
            r is Some <==> !old(self).busy() && old(queue).pending().len() > 0,
            r is None ==> final(self).chain() == old(self).chain(),
            r is None ==> final(queue).pending() == old(queue).pending(),
            r matches Some(query) ==> query@ == old(queue).pending()[0].query_text,
            r is Some ==> final(self).chain() == Some(chain_begun(old(queue).pending()[0])),
            r is Some ==> final(queue).pending() == old(queue).pending().drop_first(),
    {
        if self.is_busy() {
            return None;
        }
        match next_chain(queue) {
            Some(chain) => {
                let query = chain.job.query_text.clone();
                self.current = Some(chain);
                Some(query)
            },
            None => None,
        }
    }

    /// Hands the worker what came back from a step of its chain, and gives
    /// what to do next. A worker without a chain does nothing.
    pub fn advance(&mut self, event: ChainEvent) -> (r: ChainAction)
        ensures
            match old(self).chain() {
                Some(c) => final(self).chain() == Some(chain_next(c, event@).0) && r@
                    == chain_next(c, event@).1,
                None => final(self).chain() is None && r@ == ChainActionView::Idle,
            },
    {
        match self.current.take() {
            Some(chain) => {
                let (next, action) = chain_step(chain, event);
                self.current = Some(next);
                action
            },
            None => ChainAction::Idle,
        }
    }
}

/// The chain keeps its word about what has arrived: while it uploads, both
/// the short answer and the diagram are there.
pub open spec fn chain_consistent(chain: ChainView) -> bool {
    chain.stage == ChainStage::Uploading ==> chain.answer.short_answer is Some
        && chain.answer.diagram is Some
}

/// A follow-up reply is sent only at the end of a chain in which every stage
/// succeeded: the upload begins only once both fetches are in, and the reply
/// goes out only on a successful upload, to the channel the query came from,
/// as the one line made of the query, the short answer and the link. A failed
/// fetch or upload sends nothing, and a finished chain never acts again.
pub proof fn lemma_reply_needs_every_stage(chain: ChainView, event: ChainEventView)
    requires
        chain_consistent(chain),
    ensures
        chain_consistent(chain_next(chain, event).0),
        chain_consistent(chain_begun(chain.job)),
        chain_next(chain, event).0.job == chain.job,
        chain_next(chain, event).1 is Upload ==> chain.stage == ChainStage::Fetching && chain_next(
            chain,
            event,
        ).0.answer.short_answer is Some && chain_next(chain, event).0.answer.diagram is Some,
        chain_next(chain, event).1 is Send <==> chain.stage == ChainStage::Uploading
            && event matches ChainEventView::Uploaded { url: Some(_) },
        chain_next(chain, event).1 matches ChainActionView::Send { target, lines } ==> target
            == chain.job.reply_target && lines == seq![
            chain.job.query_text + " ⇒ "@ + chain.answer.short_answer->0 + " "@ + (
            event->Uploaded_url)->0,
        ],
        (event matches ChainEventView::ShortAnswer { text: None }) || (
        event matches ChainEventView::Diagram { bytes: None }) || (
        event matches ChainEventView::Uploaded { url: None }) ==> !(chain_next(chain, event).1 is Send)
            && !(chain_next(chain, event).1 is Upload),
        chain.stage == ChainStage::Finished ==> chain_next(chain, event) == (
            chain,
            ChainActionView::Idle,
        ),
{
}

/// How many replies go out while `chain` takes `events` in turn.
pub open spec fn replies_sent(chain: ChainView, events: Seq<ChainEventView>) -> nat
    decreases events.len(),
{
    if events.len() == 0 {
        0
    } else {
        let step = chain_next(chain, events[0]);
        let now: nat = if step.1 is Send {
            1
        } else {
            0
        };
        now + replies_sent(step.0, events.drop_first())
    }
}

/// A finished chain sends nothing, whatever it is told.
pub proof fn lemma_finished_chain_is_silent(chain: ChainView, events: Seq<ChainEventView>)
    requires
        chain.stage == ChainStage::Finished,
    ensures
        replies_sent(chain, events) == 0,
    decreases events.len(),
{
    if events.len() > 0 {
        lemma_finished_chain_is_silent(chain, events.drop_first());
    }
}

/// A query is answered once at most: whatever arrives, in whatever order and
/// however often, no more than one reply goes out.
pub proof fn lemma_at_most_one_reply(chain: ChainView, events: Seq<ChainEventView>)
    requires
        chain_consistent(chain),
    ensures
        replies_sent(chain, events) <= 1,
    decreases events.len(),
{
    if events.len() > 0 {
        let step = chain_next(chain, events[0]);
        lemma_reply_needs_every_stage(chain, events[0]);
        if step.1 is Send {
            lemma_finished_chain_is_silent(step.0, events.drop_first());
        } else {
            lemma_at_most_one_reply(step.0, events.drop_first());
        }
    }
}

/// Where no upload succeeds, no reply is ever sent: the acknowledgement
/// stays the only line.
pub proof fn lemma_failed_upload_never_replies(chain: ChainView, events: Seq<ChainEventView>)
    requires
        chain_consistent(chain),
        forall|i: int|
            0 <= i < events.len() ==> !(#[trigger] events[i] matches ChainEventView::Uploaded {
                url: Some(_),
            }),
    ensures
        replies_sent(chain, events) == 0,
    decreases events.len(),
{
    if events.len() > 0 {
        let rest = events.drop_first();
        assert(events[0] == events[0]);
        lemma_reply_needs_every_stage(chain, events[0]);
        assert forall|i: int| 0 <= i < rest.len() implies !(#[trigger] rest[i] matches ChainEventView::Uploaded {
            url: Some(_),
        }) by {
            assert(rest[i] == events[i + 1]);
        }
        lemma_failed_upload_never_replies(chain_next(chain, events[0]).0, rest);
    }
}

/// Where a fetch fails before both are in, no reply is ever sent, whatever
/// arrives after: a chain that is still fetching and is told of a failed
/// fetch has finished for good.
pub proof fn lemma_failed_fetch_never_replies(
    chain: ChainView,
    failure: ChainEventView,
    later: Seq<ChainEventView>,
)
    requires
        chain.stage == ChainStage::Fetching,
        failure == (ChainEventView::ShortAnswer { text: None }) || failure == (
        ChainEventView::Diagram { bytes: None }),
    ensures
        chain_next(chain, failure).1 is GiveUp,
        replies_sent(chain, seq![failure] + later) == 0,
{
    let events = seq![failure] + later;
    assert(events[0] == failure);
    assert(events.drop_first() =~= later);
    lemma_finished_chain_is_silent(chain_next(chain, failure).0, later);
}

} // verus!
