//! The course of one multipart upload, as a state machine.
//!
//! The caller performs the storage calls. It starts with [`MultipartUpload::begin`],
//! performs the action it is handed, reports what came of it with
//! [`MultipartUpload::step`], and goes on until it is told to report the end.

use crate::output_printer::DefaultPrinter;
use crate::text::signed_decimal;
use crate::text::signed_decimal_text;
use crate::upload_files::plan;
use crate::upload_files::plan_for;
use crate::upload_files::ChunkPlan;
use crate::upload_files::PlanError;
use vstd::prelude::*;

verus! {

/// Where an upload stands.
#[derive(Clone, Copy, Debug, PartialEq, Eq, Structural)]
pub enum UploadState {
    /// The upload was asked for; its identifier is awaited.
    Initiated,
    /// Parts are being uploaded, one at a time and in order.
    PartsUploading,
    /// Every part is uploaded and the list of parts was handed over for the
    /// closing call, whose answer is awaited.
    Finalizing,
    /// The closing call succeeded.
    Completed,
    /// The upload failed. No further request is made.
    Aborted,
}

/// One uploaded part: its number, counted from one, and the tag under which
/// the storage acknowledged it.
#[derive(Debug)]
pub struct UploadPartRecord {
    pub part_number: i32,
    pub completion_tag: String,
}

/// What an [`UploadPartRecord`] holds.
pub struct PartModel {
    pub part_number: int,
    pub completion_tag: Seq<char>,
}

impl View for UploadPartRecord {
    type V = PartModel;

    open spec fn view(&self) -> PartModel {
        PartModel { part_number: self.part_number as int, completion_tag: self.completion_tag@ }
    }
}

impl Clone for UploadPartRecord {
    fn clone(&self) -> (copy: UploadPartRecord)
        ensures
            copy@ == self@,
    {
        UploadPartRecord {
            part_number: self.part_number,
            completion_tag: self.completion_tag.clone(),
        }
    }
}

/// What the parts of a list hold, in the list's order.
pub open spec fn parts_view(parts: Seq<UploadPartRecord>) -> Seq<PartModel> {
    parts.map_values(|p: UploadPartRecord| p@)
}

/// Why an upload was given up.
#[derive(Debug)]
pub enum UploadError {
    /// The storage did not open the upload.
    StartFailed { cause: String },
    /// The storage did not take the part with this number.
    PartFailed { part_number: i32, cause: String },
    /// Every part was taken, but the storage did not close the upload.
    FinalizeFailed { cause: String },
    /// A report came in that does not answer the request that was made.
    OutOfTurn,
}

/// What the caller reports back.
#[derive(Debug)]
pub enum UploadEvent {
    /// The storage opened the upload under this identifier.
    UploadCreated { upload_id: String },
    /// The storage did not open the upload.
    CreateFailed { cause: String },
    /// The storage took the part that was asked for. Where it named no tag,
    /// the empty tag is recorded.
    PartUploaded { completion_tag: Option<String> },
    /// The storage did not take the part that was asked for.
    PartFailed { cause: String },
    /// The storage closed the upload.
    Finalized,
    /// The storage did not close the upload.
    FinalizeFailed { cause: String },
}

/// What the caller is to do next.
#[derive(Debug)]
pub enum UploadAction {
    /// Open a multipart upload and report its identifier.
    CreateUpload,
    /// Read `length` bytes of the file at `offset` and upload them as part
    /// `part_number` of upload `upload_id`.
    UploadPart { upload_id: String, part_number: i32, offset: u64, length: u64 },
    /// Close upload `upload_id` with these parts, in this order.
    Finalize { upload_id: String, parts: Vec<UploadPartRecord> },
    /// Report that the file was uploaded. Nothing follows.
    ReportSuccess,
    /// Report that the upload failed. Nothing follows.
    ReportFailure(UploadError),
    /// The upload has ended before; there is nothing to do.
    Nothing,
}

/// What a [`MultipartUpload`] holds.
pub struct UploadModel {
    pub plan: ChunkPlan,
    pub state: UploadState,
    pub upload_id: Seq<char>,
    pub parts: Seq<PartModel>,
}

impl UploadModel {
    /// The parts on record are the first parts of the plan, numbered from one
    /// without a gap. While parts are being uploaded at least one is still
    /// missing; in every other state no part is on record.
    pub open spec fn well_formed(self) -> bool {
        &&& self.plan.well_formed()
        &&& forall|i: int|
            0 <= i < self.parts.len() ==> (#[trigger] self.parts[i]).part_number == i + 1
        &&& self.state == UploadState::PartsUploading ==> self.parts.len() < self.plan.chunk_count
        &&& self.state != UploadState::PartsUploading ==> self.parts.len() == 0
    }

    /// Whether the upload has ended, well or badly.
    pub open spec fn ended(self) -> bool {
        self.state == UploadState::Completed || self.state == UploadState::Aborted
    }
}

/// A multipart upload under way.
pub struct MultipartUpload {
    plan: ChunkPlan,
    state: UploadState,
    upload_id: String,
    parts: Vec<UploadPartRecord>,
}

impl View for MultipartUpload {
    type V = UploadModel;

    closed spec fn view(&self) -> UploadModel {
        UploadModel {
            plan: self.plan,
            state: self.state,
            upload_id: self.upload_id@,
            parts: parts_view(self.parts@),
        }
    }
}

/// `action` asks for the chunk `chunk_index` of the upload `m`: the part
/// numbered `chunk_index + 1`, read at `chunk_index` chunk sizes into the
/// file, as long as the plan says.
pub open spec fn asks_for_part(m: UploadModel, chunk_index: int, action: UploadAction) -> bool {
    action matches UploadAction::UploadPart { upload_id, part_number, offset, length }
        && upload_id@ == m.upload_id && part_number == m.plan.spec_part_number(chunk_index)
        && offset == m.plan.spec_part_offset(chunk_index) && length == m.plan.spec_part_length(
        chunk_index,
    )
}

/// `post` is `pre` given up: aborted, with the parts on record dropped.
pub open spec fn given_up(pre: UploadModel, post: UploadModel) -> bool {
    post == (UploadModel { state: UploadState::Aborted, parts: Seq::<PartModel>::empty(), ..pre })
}

/// The tag that is recorded for a reported part.
pub open spec fn recorded_tag(completion_tag: Option<String>) -> Seq<char> {
    match completion_tag {
        Some(tag) => tag@,
        None => Seq::<char>::empty(),
    }
}

/// `action` reports that the storage did not open the upload.
pub open spec fn reports_failed_start(action: UploadAction, cause: Seq<char>) -> bool {
    action matches UploadAction::ReportFailure(UploadError::StartFailed { cause: reported })
        && reported@ == cause
}

/// `action` reports that the storage did not take part `part_number`.
pub open spec fn reports_failed_part(
    action: UploadAction,
    part_number: int,
    cause: Seq<char>,
) -> bool {
    action matches UploadAction::ReportFailure(
        UploadError::PartFailed { part_number: number, cause: reported },
    ) && number == part_number && reported@ == cause
}

/// `action` reports that the storage did not close the upload.
pub open spec fn reports_failed_finalize(action: UploadAction, cause: Seq<char>) -> bool {
    action matches UploadAction::ReportFailure(UploadError::FinalizeFailed { cause: reported })
        && reported@ == cause
}

/// `action` reports an event that did not answer the request made.
pub open spec fn reports_out_of_turn(action: UploadAction) -> bool {
    action matches UploadAction::ReportFailure(UploadError::OutOfTurn)
}

/// `action` hands `parts` over to close the upload `upload_id`.
pub open spec fn hands_over(
    action: UploadAction,
    upload_id: Seq<char>,
    parts: Seq<PartModel>,
) -> bool {
    action matches UploadAction::Finalize { upload_id: id, parts: handed } && id@ == upload_id
        && parts_view(handed@) == parts
}

/// The step relation of an upload: from `pre`, on `event`, the upload goes to
/// `post` and hands out `action`.
///
/// - Once ended, an upload stays as it is and hands out
///   [`UploadAction::Nothing`].
/// - The identifier of the opened upload is kept and the first part asked for.
/// - A taken part is recorded under its number. If parts are missing, the
///   next one is asked for; if none is, the recorded parts leave with
///   [`UploadAction::Finalize`].
/// - The closing call's success completes the upload.
/// - A failure, or a report that does not answer the request made, gives the
///   upload up and is reported; nothing is asked of the storage afterwards.
pub open spec fn upload_step(
    pre: UploadModel,
    event: UploadEvent,
    post: UploadModel,
    action: UploadAction,
) -> bool {
    match pre.state {
        UploadState::Completed | UploadState::Aborted => post == pre && action is Nothing,
        UploadState::Initiated => match event {
            UploadEvent::UploadCreated { upload_id } => post == (UploadModel {
                state: UploadState::PartsUploading,
                upload_id: upload_id@,
                ..pre
            }) && asks_for_part(post, 0, action),
            UploadEvent::CreateFailed { cause } => given_up(pre, post) && reports_failed_start(
                action,
                cause@,
            ),
            _ => given_up(pre, post) && reports_out_of_turn(action),
        },
        UploadState::PartsUploading => match event {
            UploadEvent::PartUploaded { completion_tag } => {
                let done = pre.parts.len() as int;
                let record = PartModel {
                    part_number: done + 1,
                    completion_tag: recorded_tag(completion_tag),
                };
                if done + 1 < pre.plan.chunk_count {
                    post == (UploadModel { parts: pre.parts.push(record), ..pre })
                        && asks_for_part(post, done + 1, action)
                } else {
                    post == (UploadModel {
                        state: UploadState::Finalizing,
                        parts: Seq::<PartModel>::empty(),
                        ..pre
                    }) && hands_over(action, pre.upload_id, pre.parts.push(record))
                }
            },
            UploadEvent::PartFailed { cause } => given_up(pre, post) && reports_failed_part(
                action,
                pre.parts.len() as int + 1,
                cause@,
            ),
            _ => given_up(pre, post) && reports_out_of_turn(action),
        },
        UploadState::Finalizing => match event {
            UploadEvent::Finalized => post == (UploadModel {
                state: UploadState::Completed,
                ..pre
            }) && action is ReportSuccess,
            UploadEvent::FinalizeFailed { cause } => given_up(pre, post)
                && reports_failed_finalize(action, cause@),
            _ => given_up(pre, post) && reports_out_of_turn(action),
        },
    }
}

impl MultipartUpload {
    /// Plans the upload of a file of `file_size_bytes` bytes in chunks of
    /// `chunk_size_bytes` and asks for the upload to be opened.
    ///
    /// A file that cannot be planned is refused here, before anything is
    /// asked of the storage.
    pub fn begin(file_size_bytes: u64, chunk_size_bytes: u64) -> (r: Result<
        (MultipartUpload, UploadAction),
        PlanError,
    >)
        requires
            chunk_size_bytes > 0,
        ensures
            match plan_for(file_size_bytes as nat, chunk_size_bytes as nat) {
                Err(e) => r == Err::<(MultipartUpload, UploadAction), PlanError>(e),
                Ok(p) => r matches Ok((upload, action)) && upload@ == (UploadModel {
                    plan: p,
                    state: UploadState::Initiated,
                    upload_id: Seq::<char>::empty(),
                    parts: Seq::<PartModel>::empty(),
                }) && upload@.well_formed() && action is CreateUpload,
            },
    {
        match plan(file_size_bytes, chunk_size_bytes) {
            Err(e) => Err(e),
            Ok(p) => {
                let upload = MultipartUpload {
                    plan: p,
                    state: UploadState::Initiated,
                    upload_id: String::new(),
                    parts: Vec::new(),
                };
                assert(parts_view(upload.parts@) =~= Seq::<PartModel>::empty());
                Ok((upload, UploadAction::CreateUpload))
            },
        }
    }

    /// The plan that the upload follows.
    pub fn plan(&self) -> (p: ChunkPlan)
        ensures
            p == self@.plan,
    {
        self.plan
    }

    /// Where the upload stands.
    pub fn state(&self) -> (s: UploadState)
        ensures
            s == self@.state,
    {
        self.state
    }

    /// The number of parts on record.
    pub fn recorded_parts(&self) -> (n: usize)
        ensures
            n == self@.parts.len(),
    {
        self.parts.len()
    }
}

impl MultipartUpload {
    /// Gives the upload up and reports why.
    fn give_up(&mut self, error: UploadError) -> (action: UploadAction)
        requires
            old(self)@.plan.well_formed(),
        ensures
            given_up(old(self)@, final(self)@),
            final(self)@.well_formed(),
            action == UploadAction::ReportFailure(error),
    {
        self.state = UploadState::Aborted;
        self.parts = Vec::new();
        assert(parts_view(self.parts@) =~= Seq::<PartModel>::empty());
        UploadAction::ReportFailure(error)
    }

    /// Asks for the chunk that follows the parts on record.
    fn ask_for_next_part(&self) -> (action: UploadAction)
        requires
            self@.well_formed(),
            self@.state == UploadState::PartsUploading,
        ensures
            asks_for_part(self@, self@.parts.len() as int, action),
    {
        let chunk_index: u64 = self.parts.len() as u64;
        UploadAction::UploadPart {
            upload_id: self.upload_id.clone(),
            part_number: self.plan.part_number(chunk_index),
            offset: self.plan.part_offset(chunk_index),
            length: self.plan.part_length(chunk_index),
        }
    }

    /// Records a taken part, then asks for the next one or hands the parts
    /// over for the closing call.
    fn record_part(&mut self, completion_tag: Option<String>) -> (action: UploadAction)
        requires
            old(self)@.well_formed(),
            old(self)@.state == UploadState::PartsUploading,
        ensures
            final(self)@.well_formed(),
            upload_step(
                old(self)@,
                UploadEvent::PartUploaded { completion_tag },
                final(self)@,
                action,
            ),
    {
        let ghost before = self@;
        let chunk_index: u64 = self.parts.len() as u64;
        let tag = match completion_tag {
            Some(tag) => tag,
            None => String::new(),
        };
        let record = UploadPartRecord {
            part_number: self.plan.part_number(chunk_index),
            completion_tag: tag,
        };
        self.parts.push(record);
        assert(parts_view(self.parts@) =~= before.parts.push(record@));
        if chunk_index + 1 < self.plan.chunk_count {
            self.ask_for_next_part()
        } else {
            let mut parts: Vec<UploadPartRecord> = Vec::new();
            core::mem::swap(&mut self.parts, &mut parts);
            self.state = UploadState::Finalizing;
            assert(parts_view(self.parts@) =~= Seq::<PartModel>::empty());
            UploadAction::Finalize { upload_id: self.upload_id.clone(), parts }
        }
    }

    /// Takes the report of what came of the last action and says what to do
    /// next.
    pub fn step(&mut self, event: UploadEvent) -> (action: UploadAction)
        requires
            old(self)@.well_formed(),
        ensures
            final(self)@.well_formed(),
            upload_step(old(self)@, event, final(self)@, action),
    {
        match self.state {
            UploadState::Completed | UploadState::Aborted => UploadAction::Nothing,
            UploadState::Initiated => match event {
                UploadEvent::UploadCreated { upload_id } => {
                    self.upload_id = upload_id;
                    self.state = UploadState::PartsUploading;
                    self.ask_for_next_part()
                },
                UploadEvent::CreateFailed { cause } => self.give_up(
                    UploadError::StartFailed { cause },
                ),
                _ => self.give_up(UploadError::OutOfTurn),
            },
            UploadState::PartsUploading => match event {
                UploadEvent::PartUploaded { completion_tag } => self.record_part(completion_tag),
                UploadEvent::PartFailed { cause } => {
                    let part_number = self.plan.part_number(self.parts.len() as u64);
                    self.give_up(UploadError::PartFailed { part_number, cause })
                },
                _ => self.give_up(UploadError::OutOfTurn),
            },
            UploadState::Finalizing => match event {
                UploadEvent::Finalized => {
                    self.state = UploadState::Completed;
                    UploadAction::ReportSuccess
                },
                UploadEvent::FinalizeFailed { cause } => self.give_up(
                    UploadError::FinalizeFailed { cause },
                ),
                _ => self.give_up(UploadError::OutOfTurn),
            },
        }
    }
}

/// Where an upload goes from `pre` on `event`.
pub open spec fn upload_next(pre: UploadModel, event: UploadEvent) -> UploadModel {
    let dropped = UploadModel {
        state: UploadState::Aborted,
        parts: Seq::<PartModel>::empty(),
        ..pre
    };
    match pre.state {
        UploadState::Completed | UploadState::Aborted => pre,
        UploadState::Initiated => match event {
            UploadEvent::UploadCreated { upload_id } => UploadModel {
                state: UploadState::PartsUploading,
                upload_id: upload_id@,
                ..pre
            },
            _ => dropped,
        },
        UploadState::PartsUploading => match event {
            UploadEvent::PartUploaded { completion_tag } => {
                let done = pre.parts.len() as int;
                let record = PartModel {
                    part_number: done + 1,
                    completion_tag: recorded_tag(completion_tag),
                };
                if done + 1 < pre.plan.chunk_count {
                    UploadModel { parts: pre.parts.push(record), ..pre }
                } else {
                    UploadModel {
                        state: UploadState::Finalizing,
                        parts: Seq::<PartModel>::empty(),
                        ..pre
                    }
                }
            },
            _ => dropped,
        },
        UploadState::Finalizing => match event {
            UploadEvent::Finalized => UploadModel { state: UploadState::Completed, ..pre },
            _ => dropped,
        },
    }
}

/// A step takes an upload where [`upload_next`] says: the state after a step
/// is determined by the state before it and the event.
pub proof fn lemma_upload_step_goes_to_next(
    pre: UploadModel,
    event: UploadEvent,
    post: UploadModel,
    action: UploadAction,
)
    requires
        upload_step(pre, event, post, action),
    ensures
        post == upload_next(pre, event),
{
}

/// Where an upload stands after parts were reported as taken, one after the
/// other, under the tags `tags`.
pub open spec fn after_parts(start: UploadModel, tags: Seq<Option<String>>) -> UploadModel
    decreases tags.len(),
{
    if tags.len() == 0 {
        start
    } else {
        upload_next(
            after_parts(start, tags.drop_last()),
            UploadEvent::PartUploaded { completion_tag: tags.last() },
        )
    }
}

/// The parts that are on record after the parts with the tags `tags` were
/// taken: numbered from one, each with its tag.
pub open spec fn recorded_parts_of(tags: Seq<Option<String>>) -> Seq<PartModel> {
    Seq::new(
        tags.len(),
        |i: int| PartModel { part_number: i + 1, completion_tag: recorded_tag(tags[i]) },
    )
}

/// While parts are missing, the parts that were taken are on record in the
/// order in which they were taken, numbered from one; when the last part of
/// the plan was taken, the upload awaits the closing call.
pub proof fn lemma_taken_parts_are_recorded_in_order(
    start: UploadModel,
    tags: Seq<Option<String>>,
)
    requires
        start.well_formed(),
        start.state == UploadState::PartsUploading,
        start.parts.len() == 0,
        tags.len() <= start.plan.chunk_count,
    ensures
        tags.len() < start.plan.chunk_count ==> after_parts(start, tags) == (UploadModel {
            parts: recorded_parts_of(tags),
            ..start
        }),
        tags.len() == start.plan.chunk_count ==> after_parts(start, tags) == (UploadModel {
            state: UploadState::Finalizing,
            parts: Seq::<PartModel>::empty(),
            ..start
        }),
    decreases tags.len(),
{
    if tags.len() > 0 {
        let earlier = tags.drop_last();
        lemma_taken_parts_are_recorded_in_order(start, earlier);
        let before = after_parts(start, earlier);
        let record = PartModel {
            part_number: earlier.len() as int + 1,
            completion_tag: recorded_tag(tags.last()),
        };
        assert(before.parts =~= recorded_parts_of(earlier));
        assert(recorded_parts_of(earlier).push(record) =~= recorded_parts_of(tags));
    } else {
        assert(start.parts =~= recorded_parts_of(tags));
    }
}

/// The closing call is asked for only when the last missing part was taken,
/// and it gets every part of the plan: as many as the plan has chunks,
/// numbered from one in ascending order.
pub proof fn lemma_finalize_carries_every_part(
    pre: UploadModel,
    event: UploadEvent,
    post: UploadModel,
    action: UploadAction,
)
    requires
        pre.well_formed(),
        upload_step(pre, event, post, action),
        action is Finalize,
    ensures
        pre.state == UploadState::PartsUploading,
        event is PartUploaded,
        post.state == UploadState::Finalizing,
        action matches UploadAction::Finalize { upload_id, parts } && upload_id@ == pre.upload_id
            && parts@.len() == pre.plan.chunk_count && forall|i: int|
            0 <= i < parts@.len() ==> (#[trigger] parts@[i]).part_number == i + 1,
{
    assert(pre.state == UploadState::PartsUploading);
    assert(event is PartUploaded);
    let done = pre.parts.len() as int;
    let tag = recorded_tag(event->PartUploaded_completion_tag);
    let record = PartModel { part_number: done + 1, completion_tag: tag };
    assert(hands_over(action, pre.upload_id, pre.parts.push(record)));
    let parts = action->Finalize_parts;
    let handed = parts_view(parts@);
    assert(handed.len() == parts@.len());
    assert forall|i: int| 0 <= i < parts@.len() implies (#[trigger] parts@[i]).part_number == i
        + 1 by {
        assert(handed[i] == parts@[i]@);
        if i < done {
            assert(handed[i] == pre.parts[i]);
        }
    }
}

/// A failure that is reported for an upload under way gives the upload up:
/// the failure is handed on, the parts on record are dropped, and whatever
/// is reported afterwards, nothing more is asked of the storage. The closing
/// call is never asked for.
pub proof fn lemma_failure_ends_upload(
    pre: UploadModel,
    failure: UploadEvent,
    failed: UploadModel,
    report: UploadAction,
    later: UploadEvent,
    post: UploadModel,
    action: UploadAction,
)
    requires
        pre.well_formed(),
        !pre.ended(),
        failure is CreateFailed || failure is PartFailed || failure is FinalizeFailed,
        upload_step(pre, failure, failed, report),
        upload_step(failed, later, post, action),
    ensures
        report is ReportFailure,
        failed.state == UploadState::Aborted,
        failed.parts.len() == 0,
        post == failed,
        action is Nothing,
{
}

/// The part that is asked for is the one that follows the parts on record,
/// and it lies inside the file: parts are asked for in ascending order of
/// their numbers, each at the offset at which the one before it ended.
pub proof fn lemma_parts_are_asked_in_order(
    pre: UploadModel,
    event: UploadEvent,
    post: UploadModel,
    action: UploadAction,
)
    requires
        pre.well_formed(),
        upload_step(pre, event, post, action),
        action is UploadPart,
    ensures
        post.state == UploadState::PartsUploading,
        action matches UploadAction::UploadPart { upload_id, part_number, offset, length }
            && part_number == post.parts.len() + 1 && offset == post.parts.len()
            * post.plan.chunk_size_bytes && length > 0 && offset + length
            <= post.plan.covered_bytes(),
{
    crate::upload_files::lemma_part_inside_file(post.plan, post.parts.len() as int);
}

/// The message that announces an upload in chunks.
pub open spec fn uploading_to_text(bucket_name: Seq<char>) -> Seq<char> {
    "Uploading to "@ + bucket_name
}

/// The message for a file that was uploaded in chunks.
pub open spec fn file_uploaded_text(file_name: Seq<char>) -> Seq<char> {
    "File "@ + file_name + " uploaded successfully"@
}

/// The message for a file that is not there.
pub open spec fn file_missing_text(file_name: Seq<char>) -> Seq<char> {
    "Cannot find file "@ + file_name + "."@
}

/// The message that says why an upload was given up.
pub open spec fn upload_error_text(error: UploadError) -> Seq<char> {
    match error {
        UploadError::StartFailed { cause } => "Cannot start multi part upload "@ + cause@ + "."@,
        UploadError::PartFailed { part_number, cause } => "Cannot upload part "@
            + signed_decimal_text(part_number as int) + " "@ + cause@ + "."@,
        UploadError::FinalizeFailed { cause } => "Cannot complete multi part upload "@ + cause@
            + "."@,
        UploadError::OutOfTurn => "Unexpected report for multi part upload."@,
    }
}

impl UploadError {
    /// The message that says why the upload was given up.
    pub fn message(&self) -> (text: String)
        ensures
            text@ == upload_error_text(*self),
    {
        match self {
            UploadError::StartFailed { cause } => {
                let mut text = String::from_str("Cannot start multi part upload ");
                text.append(cause.as_str());
                text.append(".");
                text
            },
            UploadError::PartFailed { part_number, cause } => {
                let mut text = String::from_str("Cannot upload part ");
                let number = signed_decimal(*part_number as i64);
                text.append(number.as_str());
                text.append(" ");
                text.append(cause.as_str());
                text.append(".");
                text
            },
            UploadError::FinalizeFailed { cause } => {
                let mut text = String::from_str("Cannot complete multi part upload ");
                text.append(cause.as_str());
                text.append(".");
                text
            },
            UploadError::OutOfTurn => String::from_str("Unexpected report for multi part upload."),
        }
    }
}

/// The message for a file that is not there.
pub fn file_missing_message(file_name: &str) -> (text: String)
    ensures
        text@ == file_missing_text(file_name@),
{
    let mut text = String::from_str("Cannot find file ");
    text.append(file_name);
    text.append(".");
    text
}

/// Announces that a file is uploaded in chunks to the bucket `bucket_name`.
pub fn announce_chunked_upload(output_printer: &mut DefaultPrinter, bucket_name: &str)
    requires
        old(output_printer).success < u32::MAX,
    ensures
        final(output_printer)@ == old(output_printer)@.ok(uploading_to_text(bucket_name@)),
{
    let mut msg = String::from_str("Uploading to ");
    msg.append(bucket_name);
    output_printer.ok_output(msg.as_str());
}

/// Reports that the file `file_name` was uploaded in chunks.
pub fn report_chunked_upload(output_printer: &mut DefaultPrinter, file_name: &str)
    requires
        old(output_printer).success < u32::MAX,
    ensures
        final(output_printer)@ == old(output_printer)@.ok(file_uploaded_text(file_name@)),
{
    let mut msg = String::from_str("File ");
    msg.append(file_name);
    msg.append(" uploaded successfully");
    output_printer.ok_output(msg.as_str());
}

} // verus!
