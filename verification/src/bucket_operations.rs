//! What is reported for operations on whole buckets.

use crate::date_utils::convert_date_time_plain;
use crate::date_utils::converted_plain;
use crate::output_printer::DefaultPrinter;
use crate::output_printer::PrinterModel;
use crate::text::decimal;
use crate::text::decimal_text;
use vstd::prelude::*;

verus! {

/// The message for a bucket on which an operation succeeded.
pub open spec fn bucket_done_text(bucket_name: Seq<char>, ok_message: Seq<char>) -> Seq<char> {
    "Bucket "@ + bucket_name + " has been "@ + ok_message + "."@
}

/// The message for a bucket on which an operation failed.
pub open spec fn bucket_failed_text(error_message: Seq<char>, cause: Seq<char>) -> Seq<char> {
    error_message + ": "@ + cause
}

/// Reports what came of an operation on the bucket `bucket_name`: on success
/// that the bucket has been `ok_message`, on failure `error_message` with
/// the cause.
pub fn print_message<O>(
    res: &Result<O, String>,
    bucket_name: &String,
    output_printer: &mut DefaultPrinter,
    ok_message: &str,
    error_message: &str,
)
    requires
        res is Ok ==> old(output_printer).success < u32::MAX,
        res is Err ==> old(output_printer).error < u32::MAX,
    ensures
        final(output_printer)@ == match res {
            Ok(_) => old(output_printer)@.ok(bucket_done_text(bucket_name@, ok_message@)),
            Err(cause) => old(output_printer)@.err(bucket_failed_text(error_message@, cause@)),
        },
{
    match res {
        Ok(_) => {
            let mut msg = String::from_str("Bucket ");
            msg.append(bucket_name.as_str());
            msg.append(" has been ");
            msg.append(ok_message);
            msg.append(".");
            output_printer.ok_output(msg.as_str());
        },
        Err(cause) => {
            let mut msg = String::from_str(error_message);
            msg.append(": ");
            msg.append(cause.as_str());
            output_printer.err_output(msg.as_str());
        },
    }
}

/// One bucket of the account.
#[derive(Debug)]
pub struct BucketRecord {
    /// The bucket's name; a bucket without one is listed under the empty
    /// name.
    pub name: Option<String>,
    /// When the bucket was made, in seconds since the epoch.
    pub creation_date: Option<i64>,
}

/// The name under which a bucket is listed.
pub open spec fn listed_name(name: Option<String>) -> Seq<char> {
    match name {
        Some(n) => n@,
        None => Seq::<char>::empty(),
    }
}

/// The line of a bucket where every bucket is listed.
pub open spec fn bucket_text(name: Seq<char>, creation_date: Seq<char>) -> Seq<char> {
    name + ","@ + creation_date
}

/// The line of a bucket where only the buckets of a region are listed.
pub open spec fn bucket_in_region_text(
    name: Seq<char>,
    region: Seq<char>,
    creation_date: Seq<char>,
) -> Seq<char> {
    name + ","@ + region + ","@ + creation_date
}

/// The closing line where every bucket is listed.
pub open spec fn total_text(num_buckets: nat) -> Seq<char> {
    "There are a total of "@ + decimal_text(num_buckets) + " buckets"@
}

/// The closing line where only the buckets of a region are listed.
pub open spec fn total_in_region_text(
    in_region: nat,
    region: Seq<char>,
    num_buckets: nat,
) -> Seq<char> {
    "Found "@ + decimal_text(in_region) + " buckets in the "@ + region
        + " region out of a total of "@ + decimal_text(num_buckets) + " buckets."@
}

/// The count of the buckets that were listed for a region.
#[derive(Clone, Copy, Debug, PartialEq, Eq, Structural)]
pub struct BucketTally {
    /// How many buckets lie in the region.
    pub in_region: u64,
}

/// What listing one bucket does to the sink and the count.
///
/// A bucket whose date of creation cannot be written is not listed. Where
/// every bucket is listed, the bucket gets its line. Where only the buckets
/// of `region` are, it gets its line and is counted if it lies in the
/// region, and is passed over if it does not.
pub open spec fn bucket_listed(
    before: PrinterModel,
    tally: BucketTally,
    bucket: BucketRecord,
    region: Seq<char>,
    location: Option<Seq<char>>,
) -> (PrinterModel, BucketTally) {
    match converted_plain(bucket.creation_date) {
        None => (before, tally),
        Some(date) => match location {
            None => (before.ok(bucket_text(listed_name(bucket.name), date)), tally),
            Some(place) => if place == region {
                (
                    before.ok(bucket_in_region_text(listed_name(bucket.name), region, date)),
                    BucketTally { in_region: (tally.in_region + 1) as u64 },
                )
            } else {
                (before, tally)
            },
        },
    }
}

/// What a location holds, where there is one.
pub open spec fn location_view(location: Option<&str>) -> Option<Seq<char>> {
    match location {
        Some(place) => Some(place@),
        None => None,
    }
}

impl BucketTally {
    /// A count that has seen no bucket.
    pub fn new() -> (tally: BucketTally)
        ensures
            tally.in_region == 0,
    {
        BucketTally { in_region: 0 }
    }

    /// Lists one bucket. `location` is the region in which the bucket lies,
    /// given where only the buckets of `region` are listed.
    ///
    /// Returns whether the bucket's date of creation could be written; a
    /// bucket for which it could not is not listed.
    pub fn list_bucket(
        &mut self,
        output_printer: &mut DefaultPrinter,
        bucket: &BucketRecord,
        region: &str,
        location: Option<&str>,
    ) -> (dated: bool)
        requires
            old(output_printer).success < u32::MAX,
            old(self).in_region < u64::MAX,
        ensures
            dated == converted_plain(bucket.creation_date) is Some,
            (final(output_printer)@, *final(self)) == bucket_listed(
                old(output_printer)@,
                *old(self),
                *bucket,
                region@,
                location_view(location),
            ),
    {
        let creation_date = match convert_date_time_plain(bucket.creation_date) {
            Some(date) => date,
            None => {
                return false;
            },
        };
        let mut line = match &bucket.name {
            Some(name) => name.clone(),
            None => String::new(),
        };
        match location {
            Some(place) => {
                if str_equal(place, region) {
                    line.append(",");
                    line.append(region);
                    line.append(",");
                    line.append(creation_date.as_str());
                    output_printer.ok_output(line.as_str());
                    self.in_region = self.in_region + 1;
                }
            },
            None => {
                line.append(",");
                line.append(creation_date.as_str());
                output_printer.ok_output(line.as_str());
            },
        }
        true
    }

    /// Writes the closing line of a listing of `num_buckets` buckets:
    /// where only the buckets of `region` were listed, how many of them lie
    /// in it; else how many there are.
    pub fn list_total(
        &self,
        output_printer: &mut DefaultPrinter,
        region: &str,
        strict: bool,
        num_buckets: usize,
    )
        requires
            old(output_printer).success < u32::MAX,
        ensures
            final(output_printer)@ == old(output_printer)@.ok(
                if strict {
                    total_in_region_text(self.in_region as nat, region@, num_buckets as nat)
                } else {
                    total_text(num_buckets as nat)
                },
            ),
    {
        let total = decimal(num_buckets as u64);
        if strict {
            let mut msg = String::from_str("Found ");
            let count = decimal(self.in_region);
            msg.append(count.as_str());
            msg.append(" buckets in the ");
            msg.append(region);
            msg.append(" region out of a total of ");
            msg.append(total.as_str());
            msg.append(" buckets.");
            output_printer.ok_output(msg.as_str());
        } else {
            let mut msg = String::from_str("There are a total of ");
            msg.append(total.as_str());
            msg.append(" buckets");
            output_printer.ok_output(msg.as_str());
        }
    }
}

/// Whether two texts are the same.
fn str_equal(first: &str, second: &str) -> (same: bool)
    ensures
        same == (first@ == second@),
{
    let a = String::from_str(first);
    let b = String::from_str(second);
    a == b
}

/// The message for an object that was copied into another bucket.
pub open spec fn bucket_copied_text(
    source: Seq<char>,
    target_bucket: Seq<char>,
    target_key: Seq<char>,
) -> Seq<char> {
    "Copied "@ + source + " to "@ + target_bucket + "/"@ + target_key
}

/// The first message for an object that could not be copied into another
/// bucket.
pub open spec fn bucket_copy_failed_text(
    source: Seq<char>,
    target_bucket: Seq<char>,
    target_key: Seq<char>,
) -> Seq<char> {
    "Failed to copy "@ + source + " to "@ + target_bucket + "/"@ + target_key
}

/// The second message for an object that could not be copied into another
/// bucket.
pub open spec fn bucket_copy_error_text(cause: Seq<char>) -> Seq<char> {
    "Error: "@ + cause
}

/// Reports what came of copying `source`, a bucket and a key with a `/`
/// between them, to the key `target_key` of the bucket `target_bucket`.
pub fn report_copy_to_bucket(
    output_printer: &mut DefaultPrinter,
    source: &str,
    target_bucket: &str,
    target_key: &str,
    outcome: &Result<(), String>,
)
    requires
        outcome is Ok ==> old(output_printer).success < u32::MAX,
        outcome is Err ==> old(output_printer).error < u32::MAX - 1,
    ensures
        final(output_printer)@ == match outcome {
            Ok(_) => old(output_printer)@.ok(
                bucket_copied_text(source@, target_bucket@, target_key@),
            ),
            Err(cause) => old(output_printer)@.err(
                bucket_copy_failed_text(source@, target_bucket@, target_key@),
            ).err(bucket_copy_error_text(cause@)),
        },
{
    let mut msg = match outcome {
        Ok(_) => String::from_str("Copied "),
        Err(_) => String::from_str("Failed to copy "),
    };
    msg.append(source);
    msg.append(" to ");
    msg.append(target_bucket);
    msg.append("/");
    msg.append(target_key);
    match outcome {
        Ok(_) => {
            output_printer.ok_output(msg.as_str());
        },
        Err(cause) => {
            output_printer.err_output(msg.as_str());
            let mut error = String::from_str("Error: ");
            error.append(cause.as_str());
            output_printer.err_output(error.as_str());
        },
    }
}

} // verus!
