//! What is reported about the credentials of an invocation.

use crate::output_printer::DefaultPrinter;
use vstd::prelude::*;

verus! {

/// The line that shows the access key.
pub open spec fn access_key_text(access_key_id: Seq<char>) -> Seq<char> {
    "AWS_ACCESS_KEY_ID: '"@ + access_key_id + "'"@
}

/// The line that stands for the secret key, which is never shown.
pub open spec fn secret_key_text() -> Seq<char> {
    "AWS_SECRET_ACCESS_KEY: *********************************"@
}

/// Reports the credentials under which the invocation runs: the access key,
/// a line of stars for the secret key, and an empty line.
pub fn check_print_env_variables(output_printer: &mut DefaultPrinter, access_key_id: &str)
    requires
        old(output_printer).success < u32::MAX - 2,
    ensures
        final(output_printer)@ == old(output_printer)@.ok(access_key_text(access_key_id@)).ok(
            secret_key_text(),
        ).ok(Seq::<char>::empty()),
{
    let mut line = String::from_str("AWS_ACCESS_KEY_ID: '");
    line.append(access_key_id);
    line.append("'");
    output_printer.ok_output(line.as_str());
    output_printer.ok_output("AWS_SECRET_ACCESS_KEY: *********************************");
    proof {
        reveal_strlit("");
    }
    let empty = "";
    assert(empty@ =~= Seq::<char>::empty());
    output_printer.ok_output(empty);
}

/// The line that names the bucket of an invocation.
pub open spec fn bucket_text(bucket: Seq<char>) -> Seq<char> {
    "Bucket: "@ + bucket
}

/// Reports the bucket on which the invocation works, and an empty line.
pub fn announce_bucket(output_printer: &mut DefaultPrinter, bucket: &str)
    requires
        old(output_printer).success < u32::MAX - 1,
    ensures
        final(output_printer)@ == old(output_printer)@.ok(bucket_text(bucket@)).ok(
            Seq::<char>::empty(),
        ),
{
    let mut line = String::from_str("Bucket: ");
    line.append(bucket);
    output_printer.ok_output(line.as_str());
    proof {
        reveal_strlit("");
    }
    let empty = "";
    assert(empty@ =~= Seq::<char>::empty());
    output_printer.ok_output(empty);
}

} // verus!
