//! The air-quality lookup, step by step: the location is turned into a
//! coordinate, as an address first and as a keyword only where that finds
//! nothing, and the air quality at that coordinate is fetched and laid out.

use vstd::prelude::*;
use crate::command::{PollutantSelector, SelectorView};
use crate::dispatch::{finish_reply, placeholder, placeholder_reply, with_placeholder};
use crate::reply::{air_lines, format_air_quality, AirStatus, AirStatusView};
use crate::text::texts;

verus! {

/// Where an air-quality lookup stands.
#[derive(Debug, Clone, Copy, PartialEq, Eq, Structural)]
pub enum AirStage {
    /// The location is being looked up as an address.
    GeocodingAddress,
    /// The address lookup found nothing; the location is being looked up as a
    /// keyword.
    GeocodingKeyword,
    /// The air quality at the first coordinate found is being fetched.
    FetchingAir,
    Finished,
}

/// What came back from the step that an air-quality lookup waited for.
#[derive(Debug, Clone, PartialEq, Eq)]
pub enum AirEvent {
    /// The geocoder answered with `found` coordinates.
    Geocoded { found: usize },
    GeocodeFailed,
    AirFetched { status: AirStatus },
    AirFailed,
}

/// The mathematical value of an [`AirEvent`].
pub enum AirEventView {
    Geocoded { found: nat },
    GeocodeFailed,
    AirFetched { status: AirStatusView },
    AirFailed,
}

impl View for AirEvent {
    type V = AirEventView;

    open spec fn view(&self) -> AirEventView {
        match self {
            AirEvent::Geocoded { found } => AirEventView::Geocoded { found: *found as nat },
            AirEvent::GeocodeFailed => AirEventView::GeocodeFailed,
            AirEvent::AirFetched { status } => AirEventView::AirFetched { status: status@ },
            AirEvent::AirFailed => AirEventView::AirFailed,
        }
    }
}

/// What the caller of an air-quality lookup does next.
#[derive(Debug, Clone, PartialEq, Eq)]
pub enum AirAction {
    Nothing,
    GeocodeByAddress,
    GeocodeByKeyword,
    /// Fetch the air quality at the first coordinate of the last geocoding.
    FetchAir,
    Reply { lines: Vec<String> },
}

/// The mathematical value of an [`AirAction`].
pub enum AirActionView {
    Nothing,
    GeocodeByAddress,
    GeocodeByKeyword,
    FetchAir,
    Reply { lines: Seq<Seq<char>> },
}

impl View for AirAction {
    type V = AirActionView;

    open spec fn view(&self) -> AirActionView {
        match self {
            AirAction::Nothing => AirActionView::Nothing,
            AirAction::GeocodeByAddress => AirActionView::GeocodeByAddress,
            AirAction::GeocodeByKeyword => AirActionView::GeocodeByKeyword,
            AirAction::FetchAir => AirActionView::FetchAir,
            AirAction::Reply { lines } => AirActionView::Reply { lines: texts(lines@) },
        }
    }
}

/// The step of an air-quality lookup. The address lookup comes first; the
/// keyword lookup is tried only where the address lookup found no
/// coordinate. Whatever fails, and whatever arrives out of turn, ends the
/// lookup with the placeholder. A finished lookup stays finished.
pub open spec fn air_next(stage: AirStage, selector: SelectorView, event: AirEventView) -> (
    AirStage,
    AirActionView,
) {
    let failed = (AirStage::Finished, AirActionView::Reply { lines: seq![placeholder()] });
    match stage {
        AirStage::GeocodingAddress => match event {
            AirEventView::Geocoded { found } => if found > 0 {
                (AirStage::FetchingAir, AirActionView::FetchAir)
            } else {
                (AirStage::GeocodingKeyword, AirActionView::GeocodeByKeyword)
            },
            _ => failed,
        },
        AirStage::GeocodingKeyword => match event {
            AirEventView::Geocoded { found } => if found > 0 {
                (AirStage::FetchingAir, AirActionView::FetchAir)
            } else {
                failed
            },
            _ => failed,
        },
        AirStage::FetchingAir => match event {
            AirEventView::AirFetched { status } => (
                AirStage::Finished,
                AirActionView::Reply { lines: with_placeholder(air_lines(status, selector)) },
            ),
            _ => failed,
        },
        AirStage::Finished => (AirStage::Finished, AirActionView::Nothing),
    }
}

/// Begins an air-quality lookup: the location is looked up as an address.
pub fn air_start() -> (r: (AirStage, AirAction))
    ensures
        r.0 == AirStage::GeocodingAddress,
        r.1@ == AirActionView::GeocodeByAddress,
{
    (AirStage::GeocodingAddress, AirAction::GeocodeByAddress)
}

/// Takes an air-quality lookup one step on.
pub fn air_step(stage: AirStage, selector: &PollutantSelector, event: AirEvent) -> (r: (
    AirStage,
    AirAction,
))
    ensures
        (r.0, r.1@) == air_next(stage, selector@, event@),
{
    match stage {
        AirStage::GeocodingAddress => match event {
            AirEvent::Geocoded { found } => if found > 0 {
                (AirStage::FetchingAir, AirAction::FetchAir)
            } else {
                (AirStage::GeocodingKeyword, AirAction::GeocodeByKeyword)
            },
            _ => (AirStage::Finished, AirAction::Reply { lines: placeholder_reply() }),
        },
        AirStage::GeocodingKeyword => match event {
            AirEvent::Geocoded { found } => if found > 0 {
                (AirStage::FetchingAir, AirAction::FetchAir)
            } else {
                (AirStage::Finished, AirAction::Reply { lines: placeholder_reply() })
            },
            _ => (AirStage::Finished, AirAction::Reply { lines: placeholder_reply() }),
        },
        AirStage::FetchingAir => match event {
            AirEvent::AirFetched { status } => {
                let lines = finish_reply(format_air_quality(&status, selector));
                (AirStage::Finished, AirAction::Reply { lines })
            },
            _ => (AirStage::Finished, AirAction::Reply { lines: placeholder_reply() }),
        },
        AirStage::Finished => (AirStage::Finished, AirAction::Nothing),
    }
}

/// An air-quality lookup replies exactly when it finishes, its reply is
/// never empty, and the keyword lookup is asked for only after an address
/// lookup that found nothing.
pub proof fn lemma_air_lookup_always_answers(
    stage: AirStage,
    selector: SelectorView,
    event: AirEventView,
)
    ensures
        stage != AirStage::Finished ==> (air_next(stage, selector, event).0 == AirStage::Finished
            <==> air_next(stage, selector, event).1 is Reply),
        air_next(stage, selector, event).1 matches AirActionView::Reply { lines } ==> lines.len()
            >= 1,
        air_next(stage, selector, event).1 is GeocodeByKeyword <==> stage
            == AirStage::GeocodingAddress && event == (AirEventView::Geocoded { found: 0 }),
{
}

/// How many steps a lookup at `stage` can still take before it must reply.
pub open spec fn steps_left(stage: AirStage) -> nat {
    match stage {
        AirStage::GeocodingAddress => 3,
        AirStage::GeocodingKeyword => 2,
        AirStage::FetchingAir => 1,
        AirStage::Finished => 0,
    }
}

/// How many replies go out while a lookup at `stage` takes `events` in turn.
pub open spec fn replies_given(stage: AirStage, selector: SelectorView, events: Seq<AirEventView>) -> nat
    decreases events.len(),
{
    if events.len() == 0 {
        0
    } else {
        let step = air_next(stage, selector, events[0]);
        let now: nat = if step.1 is Reply {
            1
        } else {
            0
        };
        now + replies_given(step.0, selector, events.drop_first())
    }
}

/// An air-quality command is always answered, and answered once: whatever
/// comes back from the providers, a lookup replies within three steps, and
/// never again after.
pub proof fn lemma_air_lookup_replies_once(
    stage: AirStage,
    selector: SelectorView,
    events: Seq<AirEventView>,
)
    requires
        events.len() >= steps_left(stage),
    ensures
        replies_given(stage, selector, events) == if stage == AirStage::Finished {
            0nat
        } else {
            1nat
        },
    decreases events.len(),
{
    if events.len() > 0 {
        let step = air_next(stage, selector, events[0]);
        lemma_air_lookup_replies_once(step.0, selector, events.drop_first());
    }
}

} // verus!
