use aws_client::output_printer::DefaultPrinter;
use aws_client::output_printer::OutputChannel;
use aws_client::upload_files::announce_upload;
use aws_client::upload_files::calculate_chunks;
use aws_client::upload_files::plan;
use aws_client::upload_files::report_upload;
use aws_client::upload_files::upload_key;
use aws_client::upload_files::upload_target_folder;
use aws_client::upload_files::ChunkPlan;
use aws_client::upload_files::PlanError;
use aws_client::upload_files::DEFAULT_CHUNK_SIZE;
use aws_client::upload_files::MAX_CHUNKS;

const MIB: u64 = 1024 * 1024;

#[test]
fn test_calculate_chunks() {
    let file_name = "text.mp3";
    let file_size_mb = 10;
    let file_size = (file_size_mb * 1024 * 1024) as u64;
    let chunk_size_mb = 2;
    let chunk_size_bytes = (chunk_size_mb * 1024 * 1024) as u64;
    let (chunk_count, _) = calculate_chunks(file_name, file_size, chunk_size_bytes);
    assert_eq!(chunk_count, file_size_mb / chunk_size_mb);
}

#[test]
fn calculate_chunks_gives_the_last_chunk_size() {
    assert_eq!(calculate_chunks("a", 10 * MIB, 2 * MIB), (5, 2 * MIB));
    assert_eq!(calculate_chunks("a", 10 * MIB + 1, 2 * MIB), (6, 1));
    assert_eq!(calculate_chunks("a", 1, 2 * MIB), (1, 1));
    assert_eq!(calculate_chunks("a", 7, 7), (1, 7));
    assert_eq!(calculate_chunks("a", 10000, 1), (10000, 1));
}

#[test]
fn plan_of_file_that_divides_evenly() {
    let planned = plan(10 * MIB, 2 * MIB);
    assert_eq!(
        planned,
        Ok(ChunkPlan { chunk_count: 5, chunk_size_bytes: 2 * MIB, last_chunk_size_bytes: 2 * MIB })
    );
}

#[test]
fn plan_of_file_with_one_byte_over() {
    let planned = plan(10 * MIB + 1, 2 * MIB);
    assert_eq!(
        planned,
        Ok(ChunkPlan { chunk_count: 6, chunk_size_bytes: 2 * MIB, last_chunk_size_bytes: 1 })
    );
}

#[test]
fn plan_refuses_empty_file() {
    assert_eq!(plan(0, 2 * MIB), Err(PlanError::EmptyFile));
    assert_eq!(plan(0, 1), Err(PlanError::EmptyFile));
}

#[test]
fn plan_refuses_too_many_chunks() {
    assert_eq!(MAX_CHUNKS, 10000);
    assert_eq!(plan(10001, 1), Err(PlanError::TooManyChunks));
    assert_eq!(plan(u64::MAX, 1), Err(PlanError::TooManyChunks));
    assert_eq!(plan(10000 * MIB + 1, MIB), Err(PlanError::TooManyChunks));
}

#[test]
fn plan_accepts_the_largest_chunk_count() {
    assert_eq!(
        plan(10000, 1),
        Ok(ChunkPlan { chunk_count: 10000, chunk_size_bytes: 1, last_chunk_size_bytes: 1 })
    );
    assert_eq!(
        plan(10000 * MIB, MIB),
        Ok(ChunkPlan { chunk_count: 10000, chunk_size_bytes: MIB, last_chunk_size_bytes: MIB })
    );
    assert_eq!(
        plan(9999 * MIB + 5, MIB),
        Ok(ChunkPlan { chunk_count: 10000, chunk_size_bytes: MIB, last_chunk_size_bytes: 5 })
    );
}

#[test]
fn plan_covers_the_file_exactly() {
    let sizes: Vec<(u64, u64)> =
        vec![(1, 1), (1, 5), (5, 5), (6, 5), (9, 5), (10, 5), (11, 5), (123456789, 54321), (u64::MAX, u64::MAX / 3)];
    for (file_size, chunk_size) in sizes {
        let p = plan(file_size, chunk_size).unwrap();
        assert!(p.chunk_count >= 1);
        assert!(p.chunk_count <= MAX_CHUNKS);
        assert!(p.last_chunk_size_bytes > 0);
        assert!(p.last_chunk_size_bytes <= p.chunk_size_bytes);
        assert_eq!(p.chunk_size_bytes, chunk_size);
        assert_eq!(
            (p.chunk_count as u128 - 1) * p.chunk_size_bytes as u128 + p.last_chunk_size_bytes as u128,
            file_size as u128
        );
    }
}

#[test]
fn plan_is_repeatable() {
    assert_eq!(plan(10 * MIB + 1, 2 * MIB), plan(10 * MIB + 1, 2 * MIB));
    assert_eq!(plan(0, 3), plan(0, 3));
    assert_eq!(plan(u64::MAX, 3), plan(u64::MAX, 3));
}

#[test]
fn parts_tile_the_file() {
    let p = plan(11, 4).unwrap();
    assert_eq!(p.chunk_count, 3);
    assert_eq!((p.part_number(0), p.part_offset(0), p.part_length(0)), (1, 0, 4));
    assert_eq!((p.part_number(1), p.part_offset(1), p.part_length(1)), (2, 4, 4));
    assert_eq!((p.part_number(2), p.part_offset(2), p.part_length(2)), (3, 8, 3));
    let mut end = 0;
    for i in 0..p.chunk_count {
        assert_eq!(p.part_offset(i), end);
        end = p.part_offset(i) + p.part_length(i);
    }
    assert_eq!(end, 11);
}

#[test]
fn plan_error_messages_name_the_file() {
    assert_eq!(PlanError::EmptyFile.message("a.bin"), "File is empty a.bin.");
    assert_eq!(PlanError::TooManyChunks.message("a.bin"), "Too many chunks a.bin.");
}

#[test]
fn default_chunk_size_is_five() {
    assert_eq!(DEFAULT_CHUNK_SIZE, 5);
}

#[test]
fn upload_key_joins_folder_and_file() {
    assert_eq!(upload_key("folder", "a.txt"), "folder/a.txt");
    assert_eq!(upload_key("folder", "data\\sub\\a.txt"), "folder/data/sub/a.txt");
    assert_eq!(upload_key("", ""), "/");
}

#[test]
fn upload_without_target_folder_is_reported() {
    let mut printer = DefaultPrinter::new(None);
    assert_eq!(upload_target_folder(&mut printer, None), None);
    assert_eq!(printer.error, 1);
    assert_eq!(printer.success, 0);
    assert_eq!(printer.lines.len(), 1);
    assert_eq!(printer.lines[0].channel, OutputChannel::Error);
    assert_eq!(printer.lines[0].text, "Please specify the target folder");
    assert_eq!(upload_target_folder(&mut printer, Some("tf")), Some("tf"));
    assert_eq!(printer.error, 1);
    assert_eq!(printer.lines.len(), 1);
}

#[test]
fn upload_is_announced_and_reported() {
    let mut printer = DefaultPrinter::new(None);
    let key = announce_upload(&mut printer, "tf", "dir\\a.txt", "dir\\a.txt");
    assert_eq!(key, "tf/dir/a.txt");
    report_upload(&mut printer, key.as_str(), &Ok(()));
    report_upload(&mut printer, key.as_str(), &Err("timeout".to_string()));
    let texts: Vec<&str> = printer.lines.iter().map(|l| l.text.as_str()).collect();
    assert_eq!(
        texts,
        vec!["Uploading dir\\a.txt to tf/dir/a.txt", "Upload successful: tf/dir/a.txt", "Could not upload: timeout"]
    );
    assert_eq!(printer.success, 2);
    assert_eq!(printer.error, 1);
    assert_eq!(printer.lines[2].channel, OutputChannel::Error);
}
