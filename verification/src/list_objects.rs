//! Selecting the objects of a listing and handing them out in order.

use crate::key_pattern::chosen_pattern;
use crate::key_pattern::extract_list_regex_pattern;
use crate::key_pattern::key_matches;
use crate::key_pattern::pattern_fault;
use crate::key_pattern::PatternError;
use crate::key_pattern::KeyPattern;
use crate::object_record::records_view;
use crate::output_printer::DefaultPrinter;
use crate::output_printer::PrinterModel;
use crate::object_record::sort_key;
use crate::object_record::ObjectModel;
use crate::object_record::ObjectRecord;
use crate::object_record::SortDirection;
use crate::result_sorter::is_store;
use crate::result_sorter::lemma_place_exists;
use crate::result_sorter::lemma_store_insert_at;
use crate::result_sorter::lemma_store_of_is_store;
use crate::result_sorter::store_of;
use crate::result_sorter::ResultSorter;
use vstd::prelude::*;

verus! {

/// The records whose key the pattern matches.
pub open spec fn selects(pattern: Seq<char>) -> spec_fn(ObjectModel) -> bool {
    |r: ObjectModel| key_matches(pattern, r.key)
}

/// What is selected from a listing: the records whose key the pattern
/// matches are added, in the listing's order, to an empty store.
pub open spec fn selection(
    listing: Seq<ObjectModel>,
    pattern: Seq<char>,
    direction: SortDirection,
) -> Seq<ObjectModel> {
    store_of(listing.filter(selects(pattern)), direction)
}

/// Every record of a store that was filled from `records` is one of
/// `records`.
pub proof fn lemma_store_of_members(records: Seq<ObjectModel>, direction: SortDirection)
    ensures
        forall|i: int|
            0 <= i < store_of(records, direction).len() ==> records.contains(
                #[trigger] store_of(records, direction)[i],
            ),
    decreases records.len(),
{
    let out = store_of(records, direction);
    if records.len() > 0 {
        let earlier = records.drop_last();
        let record = records.last();
        let kept = store_of(earlier, direction);
        lemma_store_of_members(earlier, direction);
        lemma_store_of_is_store(earlier, direction);
        assert forall|i: int| 0 <= i < out.len() implies records.contains(#[trigger] out[i]) by {
            if record.last_modified is Some {
                let place = lemma_place_exists(kept, direction, sort_key(record, direction));
                lemma_store_insert_at(kept, record, direction, place);
                if i == place {
                    assert(records[records.len() - 1] == out[i]);
                } else {
                    let at = if i < place || out.len() == kept.len() {
                        i
                    } else {
                        i - 1
                    };
                    assert(out[i] == kept[at]);
                    assert(earlier.contains(kept[at]));
                    let source = choose|source: int|
                        0 <= source < earlier.len() && earlier[source] == kept[at];
                    assert(records[source] == out[i]);
                }
            } else {
                assert(earlier.contains(kept[i]));
                let source = choose|source: int|
                    0 <= source < earlier.len() && earlier[source] == kept[i];
                assert(records[source] == out[i]);
            }
        }
    }
}

/// What is selected stands in strictly increasing order of its keys; each
/// selected record is a record of the listing, has a time of modification,
/// and has a key that the pattern matches.
pub proof fn lemma_selection_is_sound(
    listing: Seq<ObjectModel>,
    pattern: Seq<char>,
    direction: SortDirection,
)
    ensures
        is_store(selection(listing, pattern, direction), direction),
        forall|i: int|
            0 <= i < selection(listing, pattern, direction).len() ==> {
                let chosen = #[trigger] selection(listing, pattern, direction)[i];
                listing.contains(chosen) && key_matches(pattern, chosen.key)
            },
{
    let matched = listing.filter(selects(pattern));
    let out = selection(listing, pattern, direction);
    lemma_store_of_is_store(matched, direction);
    lemma_store_of_members(matched, direction);
    assert forall|i: int| 0 <= i < out.len() implies listing.contains(#[trigger] out[i])
        && key_matches(pattern, out[i].key) by {
        assert(matched.contains(out[i]));
        let at = choose|at: int| 0 <= at < matched.len() && matched[at] == out[i];
        listing.lemma_filter_pred(selects(pattern), at);
        lemma_filtered_is_member(listing, selects(pattern), at);
    }
}

/// What a filter keeps stood in the filtered sequence.
pub proof fn lemma_filtered_is_member<A>(s: Seq<A>, pred: spec_fn(A) -> bool, i: int)
    requires
        0 <= i < s.filter(pred).len(),
    ensures
        s.contains(s.filter(pred)[i]),
    decreases s.len(),
{
    reveal(Seq::filter);
    if s.len() > 0 {
        let shorter = s.drop_last();
        if i < shorter.filter(pred).len() {
            lemma_filtered_is_member(shorter, pred, i);
            let at = choose|at: int| 0 <= at < shorter.len() && shorter[at] == shorter.filter(
                pred,
            )[i];
            assert(s[at] == s.filter(pred)[i]);
        } else {
            assert(s[s.len() - 1] == s.filter(pred)[i]);
        }
    }
}

/// A record whose key the pattern does not match is never selected.
pub proof fn lemma_unmatched_is_never_selected(
    listing: Seq<ObjectModel>,
    pattern: Seq<char>,
    direction: SortDirection,
    record: ObjectModel,
)
    requires
        !key_matches(pattern, record.key),
    ensures
        !selection(listing, pattern, direction).contains(record),
{
    lemma_selection_is_sound(listing, pattern, direction);
}

/// Selects the objects of `listing` whose key `pattern` matches and orders
/// them by their time of modification in `direction`.
pub fn select_objects(
    listing: &Vec<ObjectRecord>,
    pattern: &KeyPattern,
    direction: SortDirection,
) -> (chosen: Vec<ObjectRecord>)
    ensures
        records_view(chosen@) == selection(records_view(listing@), pattern@, direction),
{
    let mut result_sorter = ResultSorter::new(direction);
    let ghost all = records_view(listing@);
    let mut i: usize = 0;
    assert(all.take(0) =~= Seq::<ObjectModel>::empty());
    proof {
        reveal(Seq::filter);
    }
    while i < listing.len()
        invariant
            i <= listing.len(),
            all == records_view(listing@),
            result_sorter.well_formed(),
            result_sorter.direction() == direction,
            result_sorter@ == selection(all.take(i as int), pattern@, direction),
        decreases listing.len() - i,
    {
        let obj = &listing[i];
        proof {
            reveal(Seq::filter);
            let longer = all.take(i + 1);
            assert(longer.drop_last() =~= all.take(i as int));
            assert(longer.last() == obj@);
            let matched = all.take(i as int).filter(selects(pattern@));
            if key_matches(pattern@, obj@.key) {
                assert(longer.filter(selects(pattern@)) == matched.push(obj@));
                assert(matched.push(obj@).drop_last() =~= matched);
            } else {
                assert(longer.filter(selects(pattern@)) == matched);
            }
        }
        if pattern.matches(obj.key.as_str()) {
            result_sorter.sort_results(obj.clone());
        }
        i += 1;
    }
    assert(all.take(i as int) =~= all);
    result_sorter.get_sorted()
}

/// Why a pass over a listing failed.
#[derive(Debug)]
pub enum PipelineError {
    /// The pattern is no regular expression.
    InvalidPattern,
    /// The pattern is not among those that are compiled.
    UnsupportedPattern,
    /// The listing could not be fetched.
    ListFailed { cause: String },
    /// A report came in that does not answer the request that was made.
    OutOfTurn,
}

/// Where a pass over a listing stands.
#[derive(Clone, Copy, Debug, PartialEq, Eq, Structural)]
pub enum PipelineState {
    /// The listing was asked for.
    AwaitingListing,
    /// The selected objects are handed out, one at a time.
    Dispatching,
    /// Every selected object was handed out and handled.
    Finished,
    /// The pass failed. No further object is handed out.
    Failed,
}

/// What the caller reports back.
#[derive(Debug)]
pub enum PipelineEvent {
    /// The listing came back with these objects.
    Listed { objects: Vec<ObjectRecord> },
    /// The listing could not be fetched.
    ListFailed { cause: String },
    /// The object that was handed out was handled, well or badly.
    Handled { succeeded: bool },
}

/// What the caller is to do next.
#[derive(Debug)]
pub enum PipelineAction {
    /// Fetch the bucket's listing and report it.
    FetchListing,
    /// Handle this object and report when that is done.
    Process(ObjectRecord),
    /// Every selected object was handled. Nothing follows.
    ReportDone,
    /// Report that the pass failed. Nothing follows.
    ReportFailure(PipelineError),
    /// The pass has ended before; there is nothing to do.
    Nothing,
}

/// What a [`ListingPipeline`] holds.
pub struct PipelineModel {
    pub pattern: Seq<char>,
    pub direction: SortDirection,
    pub state: PipelineState,
    /// The selected objects, in the order in which they are handed out.
    pub queue: Seq<ObjectModel>,
    /// The place in the queue of the object that is out to be handled.
    pub next: int,
}

impl PipelineModel {
    /// While objects are handed out, the queue is a store in the pass's
    /// direction and the object that is out is one of it. In every other
    /// state nothing is queued.
    pub open spec fn well_formed(self) -> bool {
        &&& self.state == PipelineState::Dispatching ==> 0 <= self.next < self.queue.len()
            && is_store(self.queue, self.direction)
        &&& self.state != PipelineState::Dispatching ==> self.queue.len() == 0 && self.next == 0
    }
}

/// A pass over a bucket's listing.
pub struct ListingPipeline {
    pattern: KeyPattern,
    direction: SortDirection,
    state: PipelineState,
    queue: Vec<ObjectRecord>,
    next: usize,
}

impl View for ListingPipeline {
    type V = PipelineModel;

    closed spec fn view(&self) -> PipelineModel {
        PipelineModel {
            pattern: self.pattern@,
            direction: self.direction,
            state: self.state,
            queue: records_view(self.queue@),
            next: self.next as int,
        }
    }
}

/// `action` hands out the object at place `next` of the queue of `m`.
pub open spec fn hands_out(m: PipelineModel, action: PipelineAction) -> bool {
    action matches PipelineAction::Process(object) && object@ == m.queue[m.next]
}

/// `post` is `pre` at its end in `state`, with nothing queued.
pub open spec fn ended_in(pre: PipelineModel, state: PipelineState, post: PipelineModel) -> bool {
    post == (PipelineModel { state, queue: Seq::<ObjectModel>::empty(), next: 0, ..pre })
}

/// `action` reports that the listing could not be fetched.
pub open spec fn reports_failed_listing(action: PipelineAction, cause: Seq<char>) -> bool {
    action matches PipelineAction::ReportFailure(PipelineError::ListFailed { cause: reported })
        && reported@ == cause
}

/// `action` reports an event that did not answer the request made.
pub open spec fn reports_stray_event(action: PipelineAction) -> bool {
    action matches PipelineAction::ReportFailure(PipelineError::OutOfTurn)
}

/// The step relation of a pass: from `pre`, on `event`, the pass goes to
/// `post` and hands out `action`.
///
/// - Once ended, a pass stays as it is and hands out
///   [`PipelineAction::Nothing`].
/// - From the listing the objects are selected and ordered. If there are
///   any, the first is handed out; if there are none, the pass is done.
/// - When an object was handled, the next one in order is handed out, or the
///   pass is done. Whether the object was handled well or badly makes no
///   difference.
/// - A listing that could not be fetched, or a report that does not answer
///   the request made, fails the pass; no object is handed out afterwards.
pub open spec fn pipeline_step(
    pre: PipelineModel,
    event: PipelineEvent,
    post: PipelineModel,
    action: PipelineAction,
) -> bool {
    match pre.state {
        PipelineState::Finished | PipelineState::Failed => post == pre && action is Nothing,
        PipelineState::AwaitingListing => match event {
            PipelineEvent::Listed { objects } => {
                let chosen = selection(records_view(objects@), pre.pattern, pre.direction);
                if chosen.len() == 0 {
                    ended_in(pre, PipelineState::Finished, post) && action is ReportDone
                } else {
                    post == (PipelineModel {
                        state: PipelineState::Dispatching,
                        queue: chosen,
                        next: 0,
                        ..pre
                    }) && hands_out(post, action)
                }
            },
            PipelineEvent::ListFailed { cause } => ended_in(pre, PipelineState::Failed, post)
                && reports_failed_listing(action, cause@),
            _ => ended_in(pre, PipelineState::Failed, post) && reports_stray_event(action),
        },
        PipelineState::Dispatching => match event {
            PipelineEvent::Handled { .. } => {
                if pre.next + 1 < pre.queue.len() {
                    post == (PipelineModel { next: pre.next + 1, ..pre }) && hands_out(post, action)
                } else {
                    ended_in(pre, PipelineState::Finished, post) && action is ReportDone
                }
            },
            _ => ended_in(pre, PipelineState::Failed, post) && reports_stray_event(action),
        },
    }
}

impl ListingPipeline {
    /// Sets a pass up: compiles the pattern, or the one that selects every
    /// key that is not empty where none is given, takes the direction from
    /// the flag, and asks for the listing.
    ///
    /// A pattern that is not supported or is no regular expression is
    /// refused here, before anything is asked of the storage.
    pub fn begin(list_regex_pattern: Option<&str>, asc: Option<bool>) -> (r: Result<
        (ListingPipeline, PipelineAction),
        PipelineError,
    >)
        ensures
            match pattern_fault(chosen_pattern(list_regex_pattern)) {
                Some(PatternError::Unsupported) => r matches Err(e) && e is UnsupportedPattern,
                Some(PatternError::Invalid) => r matches Err(e) && e is InvalidPattern,
                None => r matches Ok((pipeline, action)) && pipeline@ == (PipelineModel {
                    pattern: chosen_pattern(list_regex_pattern),
                    direction: SortDirection::spec_from_flag(asc),
                    state: PipelineState::AwaitingListing,
                    queue: Seq::<ObjectModel>::empty(),
                    next: 0,
                }) && pipeline@.well_formed() && action is FetchListing,
            },
    {
        match extract_list_regex_pattern(list_regex_pattern) {
            Err(PatternError::Unsupported) => Err(PipelineError::UnsupportedPattern),
            Err(PatternError::Invalid) => Err(PipelineError::InvalidPattern),
            Ok(pattern) => {
                let pipeline = ListingPipeline {
                    pattern,
                    direction: SortDirection::from_flag(asc),
                    state: PipelineState::AwaitingListing,
                    queue: Vec::new(),
                    next: 0,
                };
                assert(records_view(pipeline.queue@) =~= Seq::<ObjectModel>::empty());
                Ok((pipeline, PipelineAction::FetchListing))
            },
        }
    }

    /// Where the pass stands.
    pub fn state(&self) -> (s: PipelineState)
        ensures
            s == self@.state,
    {
        self.state
    }

    /// The direction in which the objects are handed out.
    pub fn direction(&self) -> (d: SortDirection)
        ensures
            d == self@.direction,
    {
        self.direction
    }

    /// Ends the pass in `state` and drops what is queued.
    fn end_in(&mut self, state: PipelineState)
        requires
            state != PipelineState::Dispatching,
        ensures
            ended_in(old(self)@, state, final(self)@),
            final(self)@.well_formed(),
    {
        self.state = state;
        self.queue = Vec::new();
        self.next = 0;
        assert(records_view(self.queue@) =~= Seq::<ObjectModel>::empty());
    }

    /// Hands out the queued object that is next.
    fn hand_out(&self) -> (action: PipelineAction)
        requires
            self@.well_formed(),
            self@.state == PipelineState::Dispatching,
        ensures
            hands_out(self@, action),
    {
        PipelineAction::Process(self.queue[self.next].clone())
    }

    /// Takes the report of what came of the last action and says what to do
    /// next.
    pub fn step(&mut self, event: PipelineEvent) -> (action: PipelineAction)
        requires
            old(self)@.well_formed(),
        ensures
            final(self)@.well_formed(),
            pipeline_step(old(self)@, event, final(self)@, action),
    {
        match self.state {
            PipelineState::Finished | PipelineState::Failed => PipelineAction::Nothing,
            PipelineState::AwaitingListing => match event {
                PipelineEvent::Listed { objects } => {
                    let chosen = select_objects(&objects, &self.pattern, self.direction);
                    proof {
                        lemma_selection_is_sound(
                            records_view(objects@),
                            self.pattern@,
                            self.direction,
                        );
                    }
                    if chosen.len() == 0 {
                        self.end_in(PipelineState::Finished);
                        PipelineAction::ReportDone
                    } else {
                        self.queue = chosen;
                        self.next = 0;
                        self.state = PipelineState::Dispatching;
                        self.hand_out()
                    }
                },
                PipelineEvent::ListFailed { cause } => {
                    self.end_in(PipelineState::Failed);
                    PipelineAction::ReportFailure(PipelineError::ListFailed { cause })
                },
                _ => {
                    self.end_in(PipelineState::Failed);
                    PipelineAction::ReportFailure(PipelineError::OutOfTurn)
                },
            },
            PipelineState::Dispatching => match event {
                PipelineEvent::Handled { .. } => {
                    assert(self.next < self.queue.len());
                    if self.next + 1 < self.queue.len() {
                        self.next = self.next + 1;
                        self.hand_out()
                    } else {
                        self.end_in(PipelineState::Finished);
                        PipelineAction::ReportDone
                    }
                },
                _ => {
                    self.end_in(PipelineState::Failed);
                    PipelineAction::ReportFailure(PipelineError::OutOfTurn)
                },
            },
        }
    }
}

/// Where a pass goes from `pre` on `event`.
pub open spec fn pipeline_next(pre: PipelineModel, event: PipelineEvent) -> PipelineModel {
    let ended = |state: PipelineState|
        PipelineModel { state, queue: Seq::<ObjectModel>::empty(), next: 0, ..pre };
    match pre.state {
        PipelineState::Finished | PipelineState::Failed => pre,
        PipelineState::AwaitingListing => match event {
            PipelineEvent::Listed { objects } => {
                let chosen = selection(records_view(objects@), pre.pattern, pre.direction);
                if chosen.len() == 0 {
                    ended(PipelineState::Finished)
                } else {
                    PipelineModel {
                        state: PipelineState::Dispatching,
                        queue: chosen,
                        next: 0,
                        ..pre
                    }
                }
            },
            _ => ended(PipelineState::Failed),
        },
        PipelineState::Dispatching => match event {
            PipelineEvent::Handled { .. } => {
                if pre.next + 1 < pre.queue.len() {
                    PipelineModel { next: pre.next + 1, ..pre }
                } else {
                    ended(PipelineState::Finished)
                }
            },
            _ => ended(PipelineState::Failed),
        },
    }
}

/// A step takes a pass where [`pipeline_next`] says: the state after a step
/// is determined by the state before it and the event.
pub proof fn lemma_step_goes_to_next(
    pre: PipelineModel,
    event: PipelineEvent,
    post: PipelineModel,
    action: PipelineAction,
)
    requires
        pipeline_step(pre, event, post, action),
    ensures
        post == pipeline_next(pre, event),
{
}

/// Where a pass stands after the objects it handed out were reported as
/// handled, one after the other, with the outcomes `outcomes`.
pub open spec fn after_handling(start: PipelineModel, outcomes: Seq<bool>) -> PipelineModel
    decreases outcomes.len(),
{
    if outcomes.len() == 0 {
        start
    } else {
        pipeline_next(
            after_handling(start, outcomes.drop_last()),
            PipelineEvent::Handled { succeeded: outcomes.last() },
        )
    }
}

/// Whatever the outcomes, the selected objects are handed out one after the
/// other in the order of the queue: after as many reports as objects were
/// handed out, the next object of the queue is out, and after the report for
/// the last one the pass is finished. No failure stops the pass or changes
/// its order.
pub proof fn lemma_every_queued_object_is_handed_out(start: PipelineModel, outcomes: Seq<bool>)
    requires
        start.well_formed(),
        start.state == PipelineState::Dispatching,
        start.next == 0,
        outcomes.len() <= start.queue.len(),
    ensures
        outcomes.len() < start.queue.len() ==> after_handling(start, outcomes) == (PipelineModel {
            next: outcomes.len() as int,
            ..start
        }),
        outcomes.len() == start.queue.len() ==> after_handling(start, outcomes) == (PipelineModel {
            state: PipelineState::Finished,
            queue: Seq::<ObjectModel>::empty(),
            next: 0,
            ..start
        }),
    decreases outcomes.len(),
{
    if outcomes.len() > 0 {
        lemma_every_queued_object_is_handed_out(start, outcomes.drop_last());
    }
}

/// How an object was handled makes no difference to the pass: after a
/// failure it goes on exactly as after a success.
pub proof fn lemma_failed_action_does_not_stop_the_pass(
    pre: PipelineModel,
    post: PipelineModel,
    action: PipelineAction,
)
    ensures
        pipeline_step(pre, PipelineEvent::Handled { succeeded: false }, post, action)
            == pipeline_step(pre, PipelineEvent::Handled { succeeded: true }, post, action),
{
}

/// While objects are handed out and another one is queued, the report that
/// an object was handled, well or badly, hands out the one that follows it
/// in the queue.
pub proof fn lemma_next_object_follows(
    pre: PipelineModel,
    succeeded: bool,
    post: PipelineModel,
    action: PipelineAction,
)
    requires
        pre.well_formed(),
        pre.state == PipelineState::Dispatching,
        pre.next + 1 < pre.queue.len(),
        pipeline_step(pre, PipelineEvent::Handled { succeeded }, post, action),
    ensures
        post.state == PipelineState::Dispatching,
        action matches PipelineAction::Process(object) && object@ == pre.queue[pre.next + 1],
        sort_key(pre.queue[pre.next], pre.direction) < sort_key(
            pre.queue[pre.next + 1],
            pre.direction,
        ),
{
}

/// A listing that could not be fetched ends the pass: the failure is
/// reported, and whatever is reported afterwards, no object is handed out.
pub proof fn lemma_failed_listing_hands_nothing_out(
    pre: PipelineModel,
    cause: String,
    failed: PipelineModel,
    report: PipelineAction,
    later: PipelineEvent,
    post: PipelineModel,
    action: PipelineAction,
)
    requires
        pre.state == PipelineState::AwaitingListing,
        pipeline_step(pre, PipelineEvent::ListFailed { cause }, failed, report),
        pipeline_step(failed, later, post, action),
    ensures
        report is ReportFailure,
        failed.state == PipelineState::Failed,
        post == failed,
        action is Nothing,
{
}

/// The message for a listing that could not be fetched.
pub open spec fn list_failed_text(cause: Seq<char>) -> Seq<char> {
    "Could not list bucket: "@ + cause
}

/// The message for a pass that failed.
pub open spec fn pipeline_error_text(error: PipelineError) -> Seq<char> {
    match error {
        PipelineError::InvalidPattern => "Invalid regex"@,
        PipelineError::UnsupportedPattern => "Unsupported regex"@,
        PipelineError::ListFailed { cause } => list_failed_text(cause@),
        PipelineError::OutOfTurn => "Unexpected report for listing"@,
    }
}

impl PipelineError {
    /// The message that says why the pass failed.
    pub fn message(&self) -> (text: String)
        ensures
            text@ == pipeline_error_text(*self),
    {
        match self {
            PipelineError::InvalidPattern => String::from_str("Invalid regex"),
            PipelineError::UnsupportedPattern => String::from_str("Unsupported regex"),
            PipelineError::ListFailed { cause } => {
                let mut text = String::from_str("Could not list bucket: ");
                text.append(cause.as_str());
                text
            },
            PipelineError::OutOfTurn => String::from_str("Unexpected report for listing"),
        }
    }
}

/// One version of an object.
#[derive(Debug)]
pub struct ObjectVersionRecord {
    /// The object's key; a version without one is listed under the empty
    /// key.
    pub key: Option<String>,
    /// The version's identifier; a version without one is listed with the
    /// empty identifier.
    pub version_id: Option<String>,
}

/// A text, or the empty one where there is none.
pub open spec fn text_or_empty(text: Option<String>) -> Seq<char> {
    match text {
        Some(t) => t@,
        None => Seq::<char>::empty(),
    }
}

/// The line of one version of an object.
pub open spec fn version_text(key: Seq<char>, version_id: Seq<char>) -> Seq<char> {
    key + " :: version ID: "@ + version_id
}

/// The sink after the versions were listed: each version whose key the
/// pattern matches was reported with its line, in the order of the listing.
pub open spec fn versions_listed(
    before: PrinterModel,
    versions: Seq<ObjectVersionRecord>,
    pattern: Seq<char>,
) -> PrinterModel
    decreases versions.len(),
{
    if versions.len() == 0 {
        before
    } else {
        let earlier = versions_listed(before, versions.drop_last(), pattern);
        let version = versions.last();
        if key_matches(pattern, text_or_empty(version.key)) {
            earlier.ok(version_text(text_or_empty(version.key), text_or_empty(version.version_id)))
        } else {
            earlier
        }
    }
}

/// Listing versions reports at most one success for each version and
/// nothing else.
pub proof fn lemma_versions_listed_counts(
    before: PrinterModel,
    versions: Seq<ObjectVersionRecord>,
    pattern: Seq<char>,
)
    ensures
        before.success <= versions_listed(before, versions, pattern).success <= before.success
            + versions.len(),
        versions_listed(before, versions, pattern).error == before.error,
        versions_listed(before, versions, pattern).sep == before.sep,
    decreases versions.len(),
{
    if versions.len() > 0 {
        lemma_versions_listed_counts(before, versions.drop_last(), pattern);
    }
}

/// The text of `text`, or the empty text where there is none.
fn or_empty(text: &Option<String>) -> (chosen: &str)
    ensures
        chosen@ == text_or_empty(*text),
{
    proof {
        reveal_strlit("");
    }
    match text {
        Some(t) => t.as_str(),
        None => {
            let empty = "";
            assert(empty@ =~= Seq::<char>::empty());
            empty
        },
    }
}

/// Reports the versions whose key `pattern` matches, each with its key and
/// its identifier, in the order of the listing.
pub fn list_object_versions(
    output_printer: &mut DefaultPrinter,
    versions: &Vec<ObjectVersionRecord>,
    pattern: &KeyPattern,
)
    requires
        old(output_printer).success + versions.len() <= u32::MAX,
    ensures
        final(output_printer)@ == versions_listed(old(output_printer)@, versions@, pattern@),
{
    let mut i: usize = 0;
    assert(versions@.take(0) =~= Seq::<ObjectVersionRecord>::empty());
    while i < versions.len()
        invariant
            i <= versions.len(),
            old(output_printer).success + versions.len() <= u32::MAX,
            output_printer@ == versions_listed(
                old(output_printer)@,
                versions@.take(i as int),
                pattern@,
            ),
        decreases versions.len() - i,
    {
        let version = &versions[i];
        proof {
            assert(versions@.take(i + 1).drop_last() =~= versions@.take(i as int));
            assert(versions@.take(i + 1).last() == *version);
            lemma_versions_listed_counts(old(output_printer)@, versions@.take(i as int), pattern@);
        }
        let key_str = or_empty(&version.key);
        if pattern.matches(key_str) {
            let mut line = String::from_str(key_str);
            line.append(" :: version ID: ");
            line.append(or_empty(&version.version_id));
            output_printer.ok_output(line.as_str());
        }
        i += 1;
    }
    assert(versions@.take(i as int) =~= versions@);
}

} // verus!
