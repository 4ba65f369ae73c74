use aws_client::bucket_operations::print_message;
use aws_client::bucket_operations::report_copy_to_bucket;
use aws_client::bucket_operations::BucketRecord;
use aws_client::bucket_operations::BucketTally;
use aws_client::output_printer::OutputChannel;
use aws_client::DefaultPrinter;
use aws_sdk_s3::error::DeleteBucketError;
use aws_smithy_http::result::SdkError;
use std::error::Error;
use std::fmt;

#[derive(Debug)]
struct DummyError {}

impl fmt::Display for DummyError {
    fn fmt(&self, f: &mut fmt::Formatter<'_>) -> fmt::Result {
        f.write_str("SuperError is here!")
    }
}

impl Error for DummyError {
    fn source(&self) -> Option<&(dyn Error + 'static)> {
        None
    }
}

fn output_printer_provider() -> DefaultPrinter {
    let output_printer = DefaultPrinter { sep: ",".to_string(), success: 0, error: 0, lines: Vec::new() };
    output_printer
}

fn print_message_provider() -> (String, DefaultPrinter, String, String) {
    let bucket_name = &"test.bucket".to_string();
    let output_printer = output_printer_provider();
    let ok_message = "create";
    let error_message = "failed to create";
    (bucket_name.to_string(), output_printer, ok_message.to_string(), error_message.to_string())
}

fn described<O>(res: Result<O, SdkError<DeleteBucketError>>) -> Result<O, String> {
    res.map_err(|e| format!("{:?}", e))
}

#[test]
fn when_print_message_should_have_success_1() {
    let res: Result<&str, SdkError<DeleteBucketError>> = Ok("OK");
    let (bucket_name, mut output_printer, ok_message, error_message) = print_message_provider();
    print_message(&described(res), &bucket_name, &mut output_printer, ok_message.as_str(), error_message.as_str());
    assert_eq!(output_printer.success, 1);
    assert_eq!(output_printer.error, 0);
}

#[test]
fn when_print_message_should_have_error_1() {
    let res: Result<&str, SdkError<DeleteBucketError>> =
        Err(SdkError::ConstructionFailure(Box::new(DummyError {})));
    let (bucket_name, mut output_printer, ok_message, error_message) = print_message_provider();
    print_message(&described(res), &bucket_name, &mut output_printer, ok_message.as_str(), error_message.as_str());
    assert_eq!(output_printer.success, 0);
    assert_eq!(output_printer.error, 1);
}

#[test]
fn print_message_says_what_happened_to_the_bucket() {
    let (bucket_name, mut output_printer, _, _) = print_message_provider();
    let done: Result<u8, String> = Ok(1);
    print_message(&done, &bucket_name, &mut output_printer, "created", "An error occurred in create bucket");
    let failed: Result<u8, String> = Err("BucketAlreadyExists".to_string());
    print_message(&failed, &bucket_name, &mut output_printer, "created", "An error occurred in create bucket");
    assert_eq!(output_printer.lines[0].channel, OutputChannel::Standard);
    assert_eq!(output_printer.lines[0].text, "Bucket test.bucket has been created.");
    assert_eq!(output_printer.lines[1].channel, OutputChannel::Error);
    assert_eq!(output_printer.lines[1].text, "An error occurred in create bucket: BucketAlreadyExists");
}

#[test]
fn buckets_are_listed_with_their_dates() {
    let mut printer = output_printer_provider();
    let mut tally = BucketTally::new();
    let first = BucketRecord { name: Some("one".to_string()), creation_date: Some(1431648000) };
    let nameless = BucketRecord { name: None, creation_date: Some(0) };
    assert!(tally.list_bucket(&mut printer, &first, "eu-west-2", None));
    assert!(tally.list_bucket(&mut printer, &nameless, "eu-west-2", None));
    tally.list_total(&mut printer, "eu-west-2", false, 2);
    let texts: Vec<&str> = printer.lines.iter().map(|l| l.text.as_str()).collect();
    assert_eq!(texts, vec!["one,2015-05-15 00:00:00", ",1970-01-01 00:00:00", "There are a total of 2 buckets"]);
    assert_eq!(tally.in_region, 0);
    assert_eq!(printer.success, 3);
}

#[test]
fn buckets_of_a_region_are_listed_and_counted() {
    let mut printer = output_printer_provider();
    let mut tally = BucketTally::new();
    let here = BucketRecord { name: Some("here".to_string()), creation_date: Some(1431648000) };
    let there = BucketRecord { name: Some("there".to_string()), creation_date: Some(1431648000) };
    let also = BucketRecord { name: Some("also".to_string()), creation_date: Some(86400) };
    assert!(tally.list_bucket(&mut printer, &here, "eu-west-2", Some("eu-west-2")));
    assert!(tally.list_bucket(&mut printer, &there, "eu-west-2", Some("us-east-1")));
    assert!(tally.list_bucket(&mut printer, &also, "eu-west-2", Some("eu-west-2")));
    tally.list_total(&mut printer, "eu-west-2", true, 3);
    let texts: Vec<&str> = printer.lines.iter().map(|l| l.text.as_str()).collect();
    assert_eq!(
        texts,
        vec![
            "here,eu-west-2,2015-05-15 00:00:00",
            "also,eu-west-2,1970-01-02 00:00:00",
            "Found 2 buckets in the eu-west-2 region out of a total of 3 buckets."
        ]
    );
    assert_eq!(tally.in_region, 2);
}

#[test]
fn bucket_without_a_date_is_not_listed() {
    let mut printer = output_printer_provider();
    let mut tally = BucketTally::new();
    let undated = BucketRecord { name: Some("one".to_string()), creation_date: None };
    assert!(!tally.list_bucket(&mut printer, &undated, "r", Some("r")));
    assert!(!tally.list_bucket(&mut printer, &undated, "r", None));
    assert!(printer.lines.is_empty());
    assert_eq!(tally.in_region, 0);
}

#[test]
fn copy_between_buckets_is_reported() {
    let mut printer = output_printer_provider();
    report_copy_to_bucket(&mut printer, "src/a.txt", "dst", "b.txt", &Ok(()));
    report_copy_to_bucket(&mut printer, "src/a.txt", "dst", "b.txt", &Err("NoSuchBucket".to_string()));
    let lines: Vec<(OutputChannel, &str)> = printer.lines.iter().map(|l| (l.channel, l.text.as_str())).collect();
    assert_eq!(
        lines,
        vec![
            (OutputChannel::Standard, "Copied src/a.txt to dst/b.txt"),
            (OutputChannel::Error, "Failed to copy src/a.txt to dst/b.txt"),
            (OutputChannel::Error, "Error: NoSuchBucket")
        ]
    );
    assert_eq!(printer.success, 1);
    assert_eq!(printer.error, 2);
}
