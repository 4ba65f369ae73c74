//! What is reported when an object was to be deleted.

use crate::list_objects::pipeline_step;
use crate::list_objects::PipelineAction;
use crate::list_objects::PipelineEvent;
use crate::list_objects::PipelineModel;
use crate::list_objects::PipelineState;
use crate::output_printer::DefaultPrinter;
use crate::output_printer::LineModel;
use crate::output_printer::OutputChannel;
use crate::output_printer::PrinterModel;
use vstd::prelude::*;

verus! {

/// The message for an object that was deleted.
pub open spec fn deleted_text(key: Seq<char>) -> Seq<char> {
    "Deleted successfully "@ + key
}

/// The message for an object that could not be deleted.
pub open spec fn delete_failed_text(key: Seq<char>, cause: Seq<char>) -> Seq<char> {
    "Delete failed "@ + key + ": "@ + cause
}

/// Reports what came of deleting the object `key`: a success with the key,
/// or a failure with the key and the cause.
pub fn report_delete(output_printer: &mut DefaultPrinter, key: &str, outcome: &Result<(), String>)
    requires
        outcome is Ok ==> old(output_printer).success < u32::MAX,
        outcome is Err ==> old(output_printer).error < u32::MAX,
    ensures
        final(output_printer)@ == match outcome {
            Ok(_) => old(output_printer)@.ok(deleted_text(key@)),
            Err(cause) => old(output_printer)@.err(delete_failed_text(key@, cause@)),
        },
{
    match outcome {
        Ok(_) => {
            let mut msg = String::from_str("Deleted successfully ");
            msg.append(key);
            output_printer.ok_output(msg.as_str());
        },
        Err(cause) => {
            let mut msg = String::from_str("Delete failed ");
            msg.append(key);
            msg.append(": ");
            msg.append(cause.as_str());
            output_printer.err_output(msg.as_str());
        },
    }
}

/// A delete that fails does not stop the pass over a listing. The failure
/// goes to the error output once, with the key of the object, and is counted
/// as a failure and not as a success; and when it is reported to the pass as
/// handled badly, the pass hands out the object that follows in the queue,
/// or is finished where none follows. It never fails on that account.
pub proof fn lemma_failed_delete_does_not_stop_the_pass(
    sink: PrinterModel,
    key: Seq<char>,
    cause: Seq<char>,
    pre: PipelineModel,
    post: PipelineModel,
    action: PipelineAction,
)
    requires
        pre.well_formed(),
        pre.state == PipelineState::Dispatching,
        pipeline_step(pre, PipelineEvent::Handled { succeeded: false }, post, action),
    ensures
        sink.err(delete_failed_text(key, cause)).error == sink.error + 1,
        sink.err(delete_failed_text(key, cause)).success == sink.success,
        sink.err(delete_failed_text(key, cause)).lines == sink.lines.push(
            LineModel {
                channel: OutputChannel::Error,
                text: "Delete failed "@ + key + ": "@ + cause,
            },
        ),
        pre.next + 1 < pre.queue.len() ==> post.state == PipelineState::Dispatching && (
        action matches PipelineAction::Process(object) && object@ == pre.queue[pre.next + 1]),
        pre.next + 1 == pre.queue.len() ==> post.state == PipelineState::Finished
            && action is ReportDone,
        post.state != PipelineState::Failed,
        !(action is ReportFailure),
{
}

} // verus!
