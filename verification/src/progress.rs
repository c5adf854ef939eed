//! Progress reports: what the engine sends while it generates, which stage a
//! report speaks of, and what the caller's sink is shown of it.
//!
//! Every report of the engine reaches the sink, once and in the engine's
//! order, with its stage code replaced by the stage and its percentage
//! untouched.

use vstd::prelude::*;

verus! {

/// The stage of generation that a progress report speaks of, in the order in
/// which the engine runs them.
#[derive(Clone, Copy, Debug, PartialEq, Eq, Structural)]
pub enum ProgressCategory {
    ComputeCharts,
    ParameterizeCharts,
    PackCharts,
    BuildOutputMeshes,
}

impl ProgressCategory {
    /// The integer by which the engine names this stage. Stages are numbered
    /// in the order in which they run.
    pub open spec fn spec_code(&self) -> u32 {
        match self {
            ProgressCategory::ComputeCharts => 0,
            ProgressCategory::ParameterizeCharts => 1,
            ProgressCategory::PackCharts => 2,
            ProgressCategory::BuildOutputMeshes => 3,
        }
    }

    /// The stage that the engine names by `code`, if it names one.
    pub open spec fn of_code(code: u32) -> Option<ProgressCategory> {
        if code == 0 {
            Some(ProgressCategory::ComputeCharts)
        } else if code == 1 {
            Some(ProgressCategory::ParameterizeCharts)
        } else if code == 2 {
            Some(ProgressCategory::PackCharts)
        } else if code == 3 {
            Some(ProgressCategory::BuildOutputMeshes)
        } else {
            None
        }
    }

    /// The integer by which the engine names this stage.
    #[verifier::when_used_as_spec(spec_code)]
    pub fn code(&self) -> (code: u32)
        ensures
            code == self.spec_code(),
    {
        match self {
            ProgressCategory::ComputeCharts => 0,
            ProgressCategory::ParameterizeCharts => 1,
            ProgressCategory::PackCharts => 2,
            ProgressCategory::BuildOutputMeshes => 3,
        }
    }

    /// Finds the stage that the engine names by `code`. Every code that the
    /// engine defines has its stage; any other code has none.
    pub fn from_code(code: u32) -> (found: Option<ProgressCategory>)
        ensures
            found == ProgressCategory::of_code(code),
            found is Some <==> code <= 3,
            found matches Some(category) ==> category.spec_code() == code,
    {
        match code {
            0 => Some(ProgressCategory::ComputeCharts),
            1 => Some(ProgressCategory::ParameterizeCharts),
            2 => Some(ProgressCategory::PackCharts),
            3 => Some(ProgressCategory::BuildOutputMeshes),
            _ => None,
        }
    }
}

/// One progress report as the engine sends it: a stage code and a percentage.
#[derive(Clone, Copy, Debug, PartialEq, Eq, Structural)]
pub struct ProgressReport {
    pub code: u32,
    pub progress: i32,
}

/// One progress report as the caller's sink sees it.
#[derive(Clone, Copy, Debug, PartialEq, Eq, Structural)]
pub struct ProgressEvent {
    pub category: ProgressCategory,
    /// Percentage of the stage that is done, as the engine sent it.
    pub progress: i32,
}

/// The event that the sink is shown for `report`: the stage that the code
/// names, with the percentage as it came. A report whose code names no stage
/// has no event.
pub open spec fn event_of(report: ProgressReport) -> Option<ProgressEvent> {
    match ProgressCategory::of_code(report.code) {
        Some(category) => Some(ProgressEvent { category, progress: report.progress }),
        None => None,
    }
}

/// The report by which the engine announces `event`.
pub open spec fn report_of(event: ProgressEvent) -> ProgressReport {
    ProgressReport { code: event.category.spec_code(), progress: event.progress }
}

/// What the sink has seen after the engine sent `reports`, one after the
/// other: the event of each report that has one, in the order of the reports.
pub open spec fn replay(reports: Seq<ProgressReport>) -> Seq<ProgressEvent>
    decreases reports.len(),
{
    if reports.len() == 0 {
        Seq::empty()
    } else {
        let seen = replay(reports.drop_last());
        match event_of(reports.last()) {
            Some(event) => seen.push(event),
            None => seen,
        }
    }
}

/// `later` comes after `earlier` in the pipeline: it speaks of a later stage,
/// or of the same stage with no smaller percentage.
pub open spec fn follows(earlier: ProgressEvent, later: ProgressEvent) -> bool {
    ||| earlier.category.spec_code() < later.category.spec_code()
    ||| (earlier.category == later.category && earlier.progress <= later.progress)
}

/// The events run through the stages in the order of the pipeline, never
/// going back to an earlier stage, with percentages between 0 and 100 that
/// never fall within a stage.
pub open spec fn in_pipeline_order(events: Seq<ProgressEvent>) -> bool {
    &&& forall|i: int| 0 <= i < events.len() ==> 0 <= (#[trigger] events[i]).progress <= 100
    &&& forall|i: int, j: int|
        0 <= i < j < events.len() ==> follows(#[trigger] events[i], #[trigger] events[j])
}

/// The bridge between the engine's progress callback and the caller's sink
/// for the duration of one generation.
///
/// It turns each report of the engine into the event to show to the sink,
/// and keeps account of what the engine sent and what the sink was shown.
pub struct ProgressBridge {
    last: Option<ProgressEvent>,
    observed: Ghost<Seq<ProgressReport>>,
    forwarded: Ghost<Seq<ProgressEvent>>,
}

impl ProgressBridge {
    #[verifier::type_invariant]
    spec fn consistent(self) -> bool {
        &&& self.forwarded@ == replay(self.observed@)
        &&& self.forwarded@.len() == self.observed@.len()
        &&& self.last == if self.forwarded@.len() == 0 {
            None
        } else {
            Some(self.forwarded@.last())
        }
    }

    /// Every report taken from the engine so far, oldest first.
    pub closed spec fn observed(&self) -> Seq<ProgressReport> {
        self.observed@
    }

    /// Every event handed out for the sink so far, oldest first.
    pub closed spec fn forwarded(&self) -> Seq<ProgressEvent> {
        self.forwarded@
    }

    /// The bridge has taken no report and handed out no event yet.
    pub open spec fn fresh(&self) -> bool {
        &&& self.observed() == Seq::<ProgressReport>::empty()
        &&& self.forwarded() == Seq::<ProgressEvent>::empty()
    }

    /// A bridge that has taken no report yet.
    pub fn new() -> (bridge: ProgressBridge)
        ensures
            bridge.fresh(),
    {
        ProgressBridge { last: None, observed: Ghost(Seq::empty()), forwarded: Ghost(Seq::empty()) }
    }

    /// The event handed out last, if any was. The sink has been shown one
    /// event for each report that the engine sent.
    pub fn last(&self) -> (event: Option<ProgressEvent>)
        ensures
            event == if self.forwarded().len() == 0 {
                None
            } else {
                Some(self.forwarded().last())
            },
            self.forwarded() == replay(self.observed()),
            self.forwarded().len() == self.observed().len(),
    {
        proof {
            use_type_invariant(self);
        }
        self.last
    }

    /// Takes one report of the engine and gives the event to hand to the
    /// sink before control goes back to the engine.
    ///
    /// The event has the stage that the report's code names and the report's
    /// percentage, unchanged. A code that names no stage cannot be shown to
    /// the sink and is a fatal fault of the engine: such a report must not be
    /// passed in.
    pub fn observe(&mut self, report: ProgressReport) -> (event: ProgressEvent)
        requires
            ProgressCategory::of_code(report.code) is Some,
        ensures
            event_of(report) == Some(event),
            event.category.spec_code() == report.code,
            event.progress == report.progress,
            final(self).observed() == old(self).observed().push(report),
            final(self).forwarded() == old(self).forwarded().push(event),
            final(self).forwarded() == replay(final(self).observed()),
    {
        proof {
            use_type_invariant(&*self);
            assert(self.observed@.push(report).drop_last() =~= self.observed@);
        }
        let category = ProgressCategory::from_code(report.code).unwrap();
        let event = ProgressEvent { category, progress: report.progress };
        *self = ProgressBridge {
            last: Some(event),
            observed: Ghost(self.observed@.push(report)),
            forwarded: Ghost(self.forwarded@.push(event)),
        };
        event
    }
}

/// Two stages with the same code are the same stage, and the code of a stage
/// names that stage.
pub proof fn lemma_code_names_one_stage(a: ProgressCategory, b: ProgressCategory)
    ensures
        a.spec_code() == b.spec_code() <==> a == b,
        ProgressCategory::of_code(a.spec_code()) == Some(a),
{
}

/// Nothing is dropped, doubled or reordered: if every report of the engine
/// names a stage, the sink is shown exactly one event for each report, in
/// the order of the reports, each with the stage that the code names and the
/// percentage unchanged.
pub proof fn lemma_every_report_forwarded(reports: Seq<ProgressReport>)
    requires
        forall|i: int| 0 <= i < reports.len() ==> ProgressCategory::of_code(
            (#[trigger] reports[i]).code,
        ) is Some,
    ensures
        replay(reports).len() == reports.len(),
        forall|i: int|
            0 <= i < reports.len() ==> event_of(#[trigger] reports[i]) == Some(replay(reports)[i]),
        forall|i: int|
            0 <= i < reports.len() ==> report_of(#[trigger] replay(reports)[i]) == reports[i],
    decreases reports.len(),
{
    if reports.len() > 0 {
        let earlier = reports.drop_last();
        lemma_every_report_forwarded(earlier);
        assert(ProgressCategory::of_code(reports[reports.len() - 1].code) is Some);
        assert forall|i: int| 0 <= i < reports.len() implies event_of(#[trigger] reports[i])
            == Some(replay(reports)[i]) by {
            if i < earlier.len() {
                assert(reports[i] == earlier[i]);
            }
        }
    }
}

/// An engine that reports in pipeline order is seen in pipeline order: if the
/// events it announces run through the stages in order, with percentages
/// between 0 and 100 that never fall within a stage, then the sink is shown
/// exactly these events, and so sees them in that order.
pub proof fn lemma_ordered_reports_all_forwarded(events: Seq<ProgressEvent>)
    requires
        in_pipeline_order(events),
    ensures
        replay(events.map_values(|event: ProgressEvent| report_of(event))) == events,
        in_pipeline_order(replay(events.map_values(|event: ProgressEvent| report_of(event)))),
{
    lemma_replay_of_reports(events);
}

/// The sink is shown every event that the engine announces, whatever the
/// events are.
pub proof fn lemma_replay_of_reports(events: Seq<ProgressEvent>)
    ensures
        replay(events.map_values(|event: ProgressEvent| report_of(event))) == events,
    decreases events.len(),
{
    let reports = events.map_values(|event: ProgressEvent| report_of(event));
    if events.len() == 0 {
        assert(replay(reports) =~= events);
    } else {
        let earlier = events.drop_last();
        lemma_replay_of_reports(earlier);
        assert(reports.drop_last() =~= earlier.map_values(|event: ProgressEvent| report_of(event)));
        assert(reports.last() == report_of(events.last()));
        lemma_code_names_one_stage(events.last().category, events.last().category);
        assert(earlier.push(events.last()) =~= events);
    }
}

} // verus!
