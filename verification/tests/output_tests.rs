use aws_client::check_print_env_variables;
use aws_client::cli::Cli;
use aws_client::cli::Operation;
use aws_client::cli::BYTES_PER_MIB;
use aws_client::copy_operations::copy_source;
use aws_client::copy_operations::extract_source_key;
use aws_client::copy_operations::extract_source_target_keys;
use aws_client::copy_operations::extract_target_key;
use aws_client::copy_operations::handle_copy_error;
use aws_client::copy_operations::report_copy_multiple;
use aws_client::copy_operations::report_copy_object;
use aws_client::copy_operations::report_move_object;
use aws_client::date_utils::convert_date_time;
use aws_client::date_utils::convert_date_time_plain;
use aws_client::environment::announce_bucket;
use aws_client::file_delete::report_delete;
use aws_client::file_download::download_file_name;
use aws_client::file_download::download_path_parts;
use aws_client::file_download::report_download_failed;
use aws_client::file_download::report_downloaded;
use aws_client::object_record::ObjectRecord;
use aws_client::object_record::SortDirection;
use aws_client::output_printer::OutputChannel;
use aws_client::text::decimal;
use aws_client::text::forward_slashes;
use aws_client::text::last_segment_of;
use aws_client::text::signed_decimal;
use aws_client::DefaultPrinter;

fn printed(printer: &DefaultPrinter) -> Vec<(OutputChannel, &str)> {
    printer.lines.iter().map(|l| (l.channel, l.text.as_str())).collect()
}

fn cli_provider(operation: Operation) -> Cli {
    Cli {
        region: "eu-west-2".to_string(),
        glob_pattern: Some("*".to_string()),
        list_regex_pattern: Some(".+".to_string()),
        bucket: Some("gil.rust.test".to_string()),
        target_bucket: None,
        target_folder: None,
        mode: operation,
        sep: Some(",".to_string()),
        asc: None,
        source_key: None,
        target_key: None,
        flatten: false,
        strict_bucket: false,
        upload_file: None,
        chunk_size: None,
    }
}

#[test]
fn decimal_writes_numbers() {
    assert_eq!(decimal(0), "0");
    assert_eq!(decimal(7), "7");
    assert_eq!(decimal(10), "10");
    assert_eq!(decimal(1234567890), "1234567890");
    assert_eq!(decimal(u64::MAX), "18446744073709551615");
    assert_eq!(signed_decimal(0), "0");
    assert_eq!(signed_decimal(-1), "-1");
    assert_eq!(signed_decimal(-905), "-905");
    assert_eq!(signed_decimal(i64::MAX), "9223372036854775807");
    assert_eq!(signed_decimal(i64::MIN), "-9223372036854775808");
}

#[test]
fn last_segment_follows_the_last_slash() {
    assert_eq!(last_segment_of("a/b/c.txt"), "c.txt");
    assert_eq!(last_segment_of("c.txt"), "c.txt");
    assert_eq!(last_segment_of("a/b/"), "");
    assert_eq!(last_segment_of(""), "");
    assert_eq!(last_segment_of("/"), "");
    assert_eq!(last_segment_of("/x"), "x");
    assert_eq!(last_segment_of("\u{e4}/\u{f6}\u{fc}"), "\u{f6}\u{fc}");
}

#[test]
fn backslashes_become_slashes() {
    assert_eq!(forward_slashes("a\\b\\c"), "a/b/c");
    assert_eq!(forward_slashes("a/b"), "a/b");
    assert_eq!(forward_slashes(""), "");
    assert_eq!(forward_slashes("\\\u{e4}\\"), "/\u{e4}/");
}

#[test]
fn dates_are_written_by_the_calendar() {
    assert_eq!(convert_date_time(Some(1431648000)), Some("2015-05-15T00:00:00".to_string()));
    assert_eq!(convert_date_time(Some(0)), Some("1970-01-01T00:00:00".to_string()));
    assert_eq!(convert_date_time(Some(-1)), Some("1969-12-31T23:59:59".to_string()));
    assert_eq!(convert_date_time(None), None);
    assert_eq!(convert_date_time(Some(i64::MAX)), None);
    assert_eq!(convert_date_time(Some(i64::MIN)), None);
    assert_eq!(convert_date_time_plain(Some(1431648000)), Some("2015-05-15 00:00:00".to_string()));
    assert_eq!(convert_date_time_plain(None), None);
    assert_eq!(convert_date_time_plain(Some(i64::MAX)), None);
}

#[test]
fn printer_starts_empty() {
    let printer = DefaultPrinter::new(None);
    assert_eq!(printer.sep, ",");
    assert_eq!(printer.success, 0);
    assert_eq!(printer.error, 0);
    assert!(printer.lines.is_empty());
    assert_eq!(DefaultPrinter::new(Some(";")).sep, ";");
}

#[test]
fn printer_counts_successes_and_failures() {
    let mut printer = DefaultPrinter::new(None);
    printer.ok_output("one");
    printer.err_output("two");
    printer.ok_output("three");
    assert_eq!(printer.success, 2);
    assert_eq!(printer.error, 1);
    assert_eq!(
        printed(&printer),
        vec![(OutputChannel::Standard, "one"), (OutputChannel::Error, "two"), (OutputChannel::Standard, "three")]
    );
    let taken = printer.take_lines();
    assert_eq!(taken.len(), 3);
    assert_eq!(taken[1].text, "two");
    assert!(printer.lines.is_empty());
    assert_eq!(printer.success, 2);
    assert_eq!(printer.error, 1);
    printer.err_output("four");
    assert_eq!(printed(&printer), vec![(OutputChannel::Error, "four")]);
    assert_eq!(printer.error, 2);
}

#[test]
fn object_line_holds_key_date_and_kilobytes() {
    let mut printer = DefaultPrinter::new(Some(";"));
    let object = ObjectRecord { key: "dir/a.txt".to_string(), size: 5000, last_modified: Some(1431648000) };
    assert!(printer.output_with_stats(&object));
    assert_eq!(printed(&printer), vec![(OutputChannel::Standard, "dir/a.txt;2015-05-15T00:00:00;4 Kb")]);
    assert_eq!(printer.success, 0);
    assert_eq!(printer.error, 0);
    let small = ObjectRecord { key: "b".to_string(), size: 1023, last_modified: Some(0) };
    assert!(printer.output_with_stats(&small));
    assert_eq!(printer.lines[1].text, "b;1970-01-01T00:00:00;0 Kb");
    let negative = ObjectRecord { key: "n".to_string(), size: -2049, last_modified: Some(0) };
    assert!(printer.output_with_stats(&negative));
    assert_eq!(printer.lines[2].text, "n;1970-01-01T00:00:00;-2 Kb");
    printer.output_with_stats_dated(&small, "then");
    assert_eq!(printer.lines[3].text, "b;then;0 Kb");
}

#[test]
fn object_without_a_date_has_no_line() {
    let mut printer = DefaultPrinter::new(None);
    let undated = ObjectRecord { key: "a".to_string(), size: 1, last_modified: None };
    assert!(!printer.output_with_stats(&undated));
    let far = ObjectRecord { key: "a".to_string(), size: 1, last_modified: Some(i64::MAX) };
    assert!(!printer.output_with_stats(&far));
    assert!(printer.lines.is_empty());
}

#[test]
fn delete_is_reported() {
    let mut printer = DefaultPrinter::new(None);
    report_delete(&mut printer, "k1", &Ok(()));
    report_delete(&mut printer, "k2", &Err("AccessDenied".to_string()));
    assert_eq!(
        printed(&printer),
        vec![
            (OutputChannel::Standard, "Deleted successfully k1"),
            (OutputChannel::Error, "Delete failed k2: AccessDenied")
        ]
    );
    assert_eq!(printer.success, 1);
    assert_eq!(printer.error, 1);
}

#[test]
fn download_names_the_file_after_the_last_slash() {
    assert_eq!(download_file_name("a/b/c.txt"), Some("c.txt".to_string()));
    assert_eq!(download_file_name("c.txt"), Some("c.txt".to_string()));
    assert_eq!(download_file_name("a/b/"), None);
    assert_eq!(download_file_name(""), None);
}

#[test]
fn download_path_follows_the_flatten_flag() {
    assert_eq!(download_path_parts("a/b/c.txt", true), Some(vec!["c.txt".to_string()]));
    assert_eq!(
        download_path_parts("a/b/c.txt", false),
        Some(vec!["a/b/c.txt".to_string(), "c.txt".to_string()])
    );
    assert_eq!(download_path_parts("c.txt", false), Some(vec!["c.txt".to_string(), "c.txt".to_string()]));
    assert_eq!(download_path_parts("a/b/", true), None);
    assert_eq!(download_path_parts("a/b/", false), None);
    assert_eq!(download_path_parts("", false), None);
}

#[test]
fn download_is_reported() {
    let mut printer = DefaultPrinter::new(None);
    report_downloaded(&mut printer, "a/b.txt", "\"out/b.txt\"");
    report_download_failed(&mut printer, "a/c.txt", "NoSuchKey");
    assert_eq!(
        printed(&printer),
        vec![
            (OutputChannel::Standard, "Download successfully a/b.txt to \"out/b.txt\""),
            (OutputChannel::Error, "Cannot download a/c.txt due to NoSuchKey")
        ]
    );
    assert_eq!(printer.success, 1);
    assert_eq!(printer.error, 1);
}

#[test]
fn missing_keys_are_reported() {
    let mut printer = DefaultPrinter::new(None);
    assert_eq!(extract_source_key(&mut printer, Some("s")), Some("s".to_string()));
    assert_eq!(extract_target_key(&mut printer, Some("t")), Some("t".to_string()));
    assert!(printer.lines.is_empty());
    assert_eq!(extract_source_key(&mut printer, None), None);
    assert_eq!(extract_target_key(&mut printer, None), None);
    assert_eq!(
        printed(&printer),
        vec![
            (OutputChannel::Error, "Source key is missing. Please specify the source key"),
            (OutputChannel::Error, "Target key is missing. Please specify the target key")
        ]
    );
    assert_eq!(printer.error, 2);
}

#[test]
fn copy_keys_are_built() {
    assert_eq!(copy_source("bucket", "a/b.txt"), "bucket/a/b.txt");
    let mut printer = DefaultPrinter::new(None);
    assert_eq!(
        extract_source_target_keys(&mut printer, Some("archive"), "in/2024/a.txt"),
        Some(("in/2024/a.txt".to_string(), "archive/a.txt".to_string()))
    );
    assert_eq!(
        extract_source_target_keys(&mut printer, Some("archive"), "a.txt"),
        Some(("a.txt".to_string(), "archive/a.txt".to_string()))
    );
    assert!(printer.lines.is_empty());
    assert_eq!(extract_source_target_keys(&mut printer, None, "a.txt"), None);
    assert_eq!(printer.error, 1);
    assert_eq!(printer.lines[0].text, "Target key is missing. Please specify the target key");
}

#[test]
fn copies_and_moves_are_reported() {
    let mut printer = DefaultPrinter::new(None);
    report_copy_object(&mut printer, "s", "t", &Ok(()));
    report_copy_object(&mut printer, "s", "t", &Err("E".to_string()));
    assert!(report_move_object(&mut printer, "s", "t", &Ok(())));
    assert!(!report_move_object(&mut printer, "s", "t", &Err("E".to_string())));
    assert!(report_copy_multiple(&mut printer, "s", "t", &Ok(())));
    assert!(!report_copy_multiple(&mut printer, "s", "t", &Err("E".to_string())));
    handle_copy_error(&mut printer, "a", "b", "C");
    assert_eq!(
        printed(&printer),
        vec![
            (OutputChannel::Standard, "Successfully copied s to t"),
            (OutputChannel::Standard, "Successfully copied s to t"),
            (OutputChannel::Error, "Failed to copy s: E"),
            (OutputChannel::Standard, "Copied s to t"),
            (OutputChannel::Error, "Failed to copy s to t"),
            (OutputChannel::Error, "Error E"),
            (OutputChannel::Error, "Failed to copy a to b"),
            (OutputChannel::Error, "Error C")
        ]
    );
    assert_eq!(printer.success, 3);
    assert_eq!(printer.error, 5);
}

#[test]
fn credentials_are_reported_without_the_secret() {
    let mut printer = DefaultPrinter::new(None);
    check_print_env_variables(&mut printer, "SECRET-REDACTED");
    announce_bucket(&mut printer, "my-bucket");
    assert_eq!(
        printed(&printer),
        vec![
            (OutputChannel::Standard, "AWS_ACCESS_KEY_ID: 'SECRET-REDACTED'"),
            (OutputChannel::Standard, "AWS_SECRET_ACCESS_KEY: *********************************"),
            (OutputChannel::Standard, ""),
            (OutputChannel::Standard, "Bucket: my-bucket"),
            (OutputChannel::Standard, "")
        ]
    );
    assert_eq!(printer.success, 5);
}

#[test]
fn arguments_give_direction_and_chunk_size() {
    let mut cli = cli_provider(Operation::List);
    assert_eq!(BYTES_PER_MIB, 1024 * 1024);
    assert_eq!(cli.sort_direction(), SortDirection::Ascending);
    assert_eq!(cli.chunk_size_bytes(), 5 * 1024 * 1024);
    assert!(cli.names_bucket());
    cli.asc = Some(false);
    cli.chunk_size = Some(2);
    cli.bucket = None;
    assert_eq!(cli.sort_direction(), SortDirection::Descending);
    assert_eq!(cli.chunk_size_bytes(), 2 * 1024 * 1024);
    assert!(!cli.names_bucket());
    cli.asc = Some(true);
    assert_eq!(cli.sort_direction(), SortDirection::Ascending);
    assert_eq!(cli.mode, Operation::List);
}
