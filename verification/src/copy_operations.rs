//! The keys of copies and moves, and what is reported for them.

use crate::output_printer::DefaultPrinter;
use crate::text::last_segment;
use crate::text::last_segment_of;
use vstd::prelude::*;

verus! {

/// The message for a copy or a move that names no source key.
pub open spec fn source_key_missing_text() -> Seq<char> {
    "Source key is missing. Please specify the source key"@
}

/// The message for a copy or a move that names no target key.
pub open spec fn target_key_missing_text() -> Seq<char> {
    "Target key is missing. Please specify the target key"@
}

/// What a key holds, where there is one.
pub open spec fn key_view(key: Option<String>) -> Option<Seq<char>> {
    match key {
        Some(k) => Some(k@),
        None => None,
    }
}

/// The source key of a copy or a move. Where none is given, that is
/// reported as a failure and there is no key.
pub fn extract_source_key(output_printer: &mut DefaultPrinter, source_key: Option<&str>) -> (key:
    Option<String>)
    requires
        old(output_printer).error < u32::MAX,
    ensures
        match source_key {
            Some(given) => key_view(key) == Some(given@) && final(output_printer)@ == old(
                output_printer,
            )@,
            None => key is None && final(output_printer)@ == old(output_printer)@.err(
                source_key_missing_text(),
            ),
        },
{
    match source_key {
        Some(s) => Some(String::from_str(s)),
        None => {
            let msg = "Source key is missing. Please specify the source key";
            output_printer.err_output(msg);
            None
        },
    }
}

/// The target key of a copy or a move. Where none is given, that is
/// reported as a failure and there is no key.
pub fn extract_target_key(output_printer: &mut DefaultPrinter, target_key: Option<&str>) -> (key:
    Option<String>)
    requires
        old(output_printer).error < u32::MAX,
    ensures
        match target_key {
            Some(given) => key_view(key) == Some(given@) && final(output_printer)@ == old(
                output_printer,
            )@,
            None => key is None && final(output_printer)@ == old(output_printer)@.err(
                target_key_missing_text(),
            ),
        },
{
    match target_key {
        Some(s) => Some(String::from_str(s)),
        None => {
            let msg = "Target key is missing. Please specify the target key";
            output_printer.err_output(msg);
            None
        },
    }
}

/// The source of a copy as the storage wants it: the bucket, a `/`, and the
/// key.
pub open spec fn copy_source_text(bucket_name: Seq<char>, source_key: Seq<char>) -> Seq<char> {
    bucket_name + "/"@ + source_key
}

/// The source of a copy as the storage wants it.
pub fn copy_source(bucket_name: &str, source_key: &str) -> (source: String)
    ensures
        source@ == copy_source_text(bucket_name@, source_key@),
{
    let mut source = String::from_str(bucket_name);
    source.append("/");
    source.append(source_key);
    source
}

/// The key under which an object is copied into a folder: the folder, a `/`,
/// and what follows the last `/` of the object's key.
pub open spec fn target_key_text(target_folder: Seq<char>, source_key: Seq<char>) -> Seq<char> {
    target_folder + "/"@ + last_segment(source_key)
}

/// The keys between which an object of a listing is copied or moved: its own
/// key, and the key under which it goes into the target folder. Where no
/// target folder is given, that is reported as a failure and there are no
/// keys.
pub fn extract_source_target_keys(
    output_printer: &mut DefaultPrinter,
    target_key: Option<&str>,
    object_key: &str,
) -> (keys: Option<(String, String)>)
    requires
        old(output_printer).error < u32::MAX,
    ensures
        match target_key {
            Some(folder) => final(output_printer)@ == old(output_printer)@ && (keys matches Some(
                (source, target),
            ) && source@ == object_key@ && target@ == target_key_text(folder@, object_key@)),
            None => keys is None && final(output_printer)@ == old(output_printer)@.err(
                target_key_missing_text(),
            ),
        },
{
    match extract_target_key(output_printer, target_key) {
        Some(target_key_folder) => {
            let source_key = String::from_str(object_key);
            let source_key_file = last_segment_of(object_key);
            let mut target = target_key_folder;
            target.append("/");
            target.append(source_key_file.as_str());
            Some((source_key, target))
        },
        None => None,
    }
}

/// The message for a single object that was copied.
pub open spec fn copied_single_text(source_key: Seq<char>, target_key: Seq<char>) -> Seq<char> {
    "Successfully copied "@ + source_key + " to "@ + target_key
}

/// The message for a single object that could not be copied before it was
/// to be deleted.
pub open spec fn move_failed_text(source_key: Seq<char>, cause: Seq<char>) -> Seq<char> {
    "Failed to copy "@ + source_key + ": "@ + cause
}

/// The message for an object of a listing that was copied.
pub open spec fn copied_text(source_key: Seq<char>, target_key: Seq<char>) -> Seq<char> {
    "Copied "@ + source_key + " to "@ + target_key
}

/// The first message for an object of a listing that could not be copied.
pub open spec fn copy_failed_text(source_key: Seq<char>, target_key: Seq<char>) -> Seq<char> {
    "Failed to copy "@ + source_key + " to "@ + target_key
}

/// The second message for an object of a listing that could not be copied.
pub open spec fn copy_error_text(cause: Seq<char>) -> Seq<char> {
    "Error "@ + cause
}

/// Reports what came of copying a single object: a success is reported, a
/// failure is left to the caller.
pub fn report_copy_object(
    output_printer: &mut DefaultPrinter,
    source_key: &str,
    target_key: &str,
    outcome: &Result<(), String>,
)
    requires
        outcome is Ok ==> old(output_printer).success < u32::MAX,
    ensures
        final(output_printer)@ == match outcome {
            Ok(_) => old(output_printer)@.ok(copied_single_text(source_key@, target_key@)),
            Err(_) => old(output_printer)@,
        },
{
    match outcome {
        Ok(_) => {
            let mut msg = String::from_str("Successfully copied ");
            msg.append(source_key);
            msg.append(" to ");
            msg.append(target_key);
            output_printer.ok_output(msg.as_str());
        },
        Err(_) => {},
    }
}

/// Reports what came of the copy that starts the move of a single object,
/// and says whether the source is to be deleted now: it is after a copy
/// that succeeded, and only then.
pub fn report_move_object(
    output_printer: &mut DefaultPrinter,
    source_key: &str,
    target_key: &str,
    outcome: &Result<(), String>,
) -> (delete_source: bool)
    requires
        outcome is Ok ==> old(output_printer).success < u32::MAX,
        outcome is Err ==> old(output_printer).error < u32::MAX,
    ensures
        delete_source == outcome is Ok,
        final(output_printer)@ == match outcome {
            Ok(_) => old(output_printer)@.ok(copied_single_text(source_key@, target_key@)),
            Err(cause) => old(output_printer)@.err(move_failed_text(source_key@, cause@)),
        },
{
    match outcome {
        Ok(_) => {
            report_copy_object(output_printer, source_key, target_key, outcome);
            true
        },
        Err(cause) => {
            let mut msg = String::from_str("Failed to copy ");
            msg.append(source_key);
            msg.append(": ");
            msg.append(cause.as_str());
            output_printer.err_output(msg.as_str());
            false
        },
    }
}

/// Reports that an object of a listing could not be copied: first the keys,
/// then the cause.
pub fn handle_copy_error(
    output_printer: &mut DefaultPrinter,
    source_key: &str,
    target_key: &str,
    cause: &str,
)
    requires
        old(output_printer).error < u32::MAX - 1,
    ensures
        final(output_printer)@ == old(output_printer)@.err(
            copy_failed_text(source_key@, target_key@),
        ).err(copy_error_text(cause@)),
{
    let mut msg = String::from_str("Failed to copy ");
    msg.append(source_key);
    msg.append(" to ");
    msg.append(target_key);
    output_printer.err_output(msg.as_str());
    let mut error = String::from_str("Error ");
    error.append(cause);
    output_printer.err_output(error.as_str());
}

/// Reports what came of copying an object of a listing, and says whether
/// the copy succeeded. A move deletes the source after a copy that
/// succeeded, and only then.
pub fn report_copy_multiple(
    output_printer: &mut DefaultPrinter,
    source_key: &str,
    target_key: &str,
    outcome: &Result<(), String>,
) -> (copied: bool)
    requires
        outcome is Ok ==> old(output_printer).success < u32::MAX,
        outcome is Err ==> old(output_printer).error < u32::MAX - 1,
    ensures
        copied == outcome is Ok,
        final(output_printer)@ == match outcome {
            Ok(_) => old(output_printer)@.ok(copied_text(source_key@, target_key@)),
            Err(cause) => old(output_printer)@.err(
                copy_failed_text(source_key@, target_key@),
            ).err(copy_error_text(cause@)),
        },
{
    match outcome {
        Ok(_) => {
            let mut msg = String::from_str("Copied ");
            msg.append(source_key);
            msg.append(" to ");
            msg.append(target_key);
            output_printer.ok_output(msg.as_str());
            true
        },
        Err(cause) => {
            handle_copy_error(output_printer, source_key, target_key, cause.as_str());
            false
        },
    }
}

} // verus!
