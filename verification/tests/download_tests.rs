use echopup::model_download::{
    part_chunk_outcome, part_read_step, serial_chunk_outcome, serial_read_step, ChunkOutcome, ReadAction,
    ReadEvent, DOWNLOAD_MAX_RETRIES,
};
use echopup::model_download::{
    build_parallel_download_plan, classify_chunk_status, classify_range_probe, existing_file_decision,
    format_bytes, is_download_complete, model_download_url, next_chunk_range, normalize_content_length,
    on_request_failure, paraformer_model_download_url, paraformer_model_files, paraformer_tmp_path,
    parse_total_from_content_range, part_file_name_of, probed_total_size, range_header_value,
    resolve_model_file_name, retry_delay, serial_download_finished, should_reuse_existing_download,
    should_try_parallel_download, tmp_file_decision, update_total_size, bytes_to_write,
    parallel_plan_usable, parallel_worker_count, ChunkStatus, ExistingFileDecision, RangeProbe, RequestFailure,
    StaleFileReason, TmpFileDecision, DOWNLOAD_CHUNK_SIZE, DOWNLOAD_PARALLEL_CHUNK_SIZE,
};

#[test]
fn test_model_name_resolution() {
    assert_eq!(resolve_model_file_name("large-v3"), Some("ggml-large-v3.bin"));
    assert_eq!(resolve_model_file_name("turbo"), Some("ggml-large-v3-turbo.bin"));
    assert_eq!(resolve_model_file_name("medium"), Some("ggml-medium.bin"));
    assert_eq!(resolve_model_file_name("unknown"), None);
    assert_eq!(
        model_download_url("ggml-large-v3.bin"),
        "https://huggingface.co/ggerganov/whisper.cpp/resolve/main/ggml-large-v3.bin"
    );
}

#[test]
fn test_parse_total_from_content_range() {
    assert_eq!(parse_total_from_content_range("bytes 0-1023/2048"), Some(2048));
    assert_eq!(parse_total_from_content_range("bytes */2048"), Some(2048));
    assert_eq!(parse_total_from_content_range("invalid"), None);
}

#[test]
fn test_download_ratio_label_and_format_bytes() {
    assert_eq!(format_bytes(500), "500 B");
    assert_eq!(format_bytes(2048), "2.00 KB");
}

#[test]
fn test_normalize_content_length() {
    assert_eq!(normalize_content_length(None), None);
    assert_eq!(normalize_content_length(Some(0)), None);
    assert_eq!(normalize_content_length(Some(1)), Some(1));
}

#[test]
fn test_should_try_parallel_download() {
    assert!(should_try_parallel_download(Some(DOWNLOAD_PARALLEL_CHUNK_SIZE * 2), 0));
    assert!(!should_try_parallel_download(Some(DOWNLOAD_PARALLEL_CHUNK_SIZE), 0));
    assert!(!should_try_parallel_download(Some(DOWNLOAD_PARALLEL_CHUNK_SIZE * 2), 1024));
    assert!(!should_try_parallel_download(None, 0));
}

#[test]
fn test_build_parallel_download_plan() {
    let parts_dir = "/tmp/echopup-model-download-plan-test";
    let plans = build_parallel_download_plan(10, 4, parts_dir);
    assert_eq!(plans.len(), 3);
    assert_eq!((plans[0].start, plans[0].end), (0, 3));
    assert_eq!((plans[1].start, plans[1].end), (4, 7));
    assert_eq!((plans[2].start, plans[2].end), (8, 9));
    assert!(plans[0].path.ends_with("part-0000"));
    assert!(plans[2].path.ends_with("part-0002"));
}

#[test]
fn test_paraformer_tmp_path_and_reuse_check() {
    let dest = "/tmp/paraformer/encoder.onnx";
    assert_eq!(paraformer_tmp_path(dest), "/tmp/paraformer/encoder.onnx.part");
    assert!(should_reuse_existing_download(1024, Some(1024)));
    assert!(!should_reuse_existing_download(0, Some(1024)));
    assert!(!should_reuse_existing_download(512, Some(1024)));
    assert!(!should_reuse_existing_download(1024, None));
}

#[test]
fn format_bytes_units_and_rounding() {
    assert_eq!(format_bytes(0), "0 B");
    assert_eq!(format_bytes(1023), "1023 B");
    assert_eq!(format_bytes(1024), "1.00 KB");
    assert_eq!(format_bytes(1536), "1.50 KB");
    assert_eq!(format_bytes(1048576), "1.00 MB");
    assert_eq!(format_bytes(5 * 1024 * 1024 + 512 * 1024), "5.50 MB");
    assert_eq!(format_bytes(1073741824), "1.00 GB");
    for b in [1000u64, 1025, 1100, 4097, 123456, 999_999, 10_000_000, 3_000_000_000, 1u64 << 60, u64::MAX] {
        let expected = if b >= 1073741824 {
            format!("{:.2} GB", b as f64 / 1073741824.0)
        } else if b >= 1048576 {
            format!("{:.2} MB", b as f64 / 1048576.0)
        } else if b >= 1024 {
            format!("{:.2} KB", b as f64 / 1024.0)
        } else {
            format!("{} B", b)
        };
        assert_eq!(format_bytes(b), expected, "bytes = {}", b);
    }
}

#[test]
fn model_files_and_urls() {
    assert_eq!(paraformer_model_files(), vec!["encoder.onnx", "decoder.onnx", "tokens.txt"]);
    assert_eq!(
        paraformer_model_download_url("tokens.txt"),
        "https://huggingface.co/csukuangfj/sherpa-onnx-streaming-paraformer-bilingual-zh-en/resolve/main/tokens.txt"
    );
    assert_eq!(part_file_name_of(7), "part-0007");
    assert_eq!(part_file_name_of(12345), "part-12345");
}

#[test]
fn plan_of_empty_file_is_empty() {
    assert!(build_parallel_download_plan(0, 4, "/tmp/x").is_empty());
    assert!(build_parallel_download_plan(10, 0, "/tmp/x").is_empty());
    let plans = build_parallel_download_plan(8, 4, "/tmp/x");
    assert_eq!(plans.len(), 2);
    assert_eq!(plans[1].end, 7);
    assert_eq!(plans[1].path, "/tmp/x/part-0001");
}

#[test]
fn serial_chunk_ranges() {
    let c = next_chunk_range(0, Some(10), DOWNLOAD_CHUNK_SIZE).unwrap();
    assert_eq!((c.start, c.end, c.target_len), (0, 9, 10));
    let c = next_chunk_range(0, None, DOWNLOAD_CHUNK_SIZE).unwrap();
    assert_eq!((c.start, c.end, c.target_len), (0, DOWNLOAD_CHUNK_SIZE - 1, DOWNLOAD_CHUNK_SIZE));
    assert!(next_chunk_range(10, Some(10), DOWNLOAD_CHUNK_SIZE).is_none());
    assert_eq!(range_header_value(0, 1023), "bytes=0-1023");
    assert!(is_download_complete(5, Some(5)));
    assert!(!is_download_complete(5, None));
}

#[test]
fn retry_rules() {
    assert_eq!(on_request_failure(1, false, true), RequestFailure::SwitchToDirect);
    assert_eq!(on_request_failure(2, true, true), RequestFailure::RetryAfterSecs(2));
    assert_eq!(on_request_failure(6, false, false), RequestFailure::GiveUp);
    assert_eq!(retry_delay(3), Some(3));
    assert_eq!(retry_delay(6), None);
}

#[test]
fn status_and_size_rules() {
    assert_eq!(classify_chunk_status(416, 10), ChunkStatus::RangeNotSatisfiable);
    assert_eq!(classify_chunk_status(500, 0), ChunkStatus::Retry);
    assert_eq!(classify_chunk_status(200, 10), ChunkStatus::Retry);
    assert_eq!(classify_chunk_status(206, 10), ChunkStatus::Accept);
    assert_eq!(classify_chunk_status(200, 0), ChunkStatus::Accept);
    assert_eq!(classify_range_probe(206, 1), RangeProbe::Supported);
    assert_eq!(classify_range_probe(200, 1), RangeProbe::Unsupported);
    assert_eq!(classify_range_probe(503, 2), RangeProbe::RetryAfterSecs(2));
    assert_eq!(classify_range_probe(503, 6), RangeProbe::Unsupported);
    assert_eq!(update_total_size(Some(5), Some(9), None, false, 0), Some(5));
    assert_eq!(update_total_size(None, Some(9), Some(3), true, 4), Some(9));
    assert_eq!(update_total_size(None, None, Some(3), true, 4), Some(7));
    assert_eq!(update_total_size(None, None, Some(3), false, 4), Some(3));
    assert_eq!(update_total_size(None, None, Some(0), false, 4), None);
    assert_eq!(probed_total_size(200, None, Some(10)), Some(10));
    assert_eq!(probed_total_size(206, None, Some(1)), None);
    assert_eq!(bytes_to_write(100, 10, 4), 6);
    assert_eq!(bytes_to_write(3, 10, 4), 3);
    assert!(serial_download_finished(0, 10, Some(10)));
    assert!(serial_download_finished(0, 3, None));
    assert!(!serial_download_finished(0, 3, Some(10)));
    assert_eq!(parallel_worker_count(3), 3);
    assert_eq!(parallel_worker_count(20), 8);
}

#[test]
fn existing_and_temporary_files() {
    assert_eq!(existing_file_decision(10, Some(10)), ExistingFileDecision::Keep);
    assert_eq!(existing_file_decision(0, Some(10)), ExistingFileDecision::Delete(StaleFileReason::Empty));
    assert_eq!(existing_file_decision(5, Some(10)), ExistingFileDecision::Delete(StaleFileReason::SizeMismatch));
    assert_eq!(existing_file_decision(5, None), ExistingFileDecision::Delete(StaleFileReason::UnknownRemoteSize));
    assert_eq!(tmp_file_decision(10, true, Some(10)), TmpFileDecision::UseComplete);
    assert_eq!(tmp_file_decision(0, true, Some(10)), TmpFileDecision::DeleteEmpty);
    assert_eq!(tmp_file_decision(20, true, Some(10)), TmpFileDecision::DeleteOversized);
    assert_eq!(tmp_file_decision(5, true, Some(10)), TmpFileDecision::Resume);
    assert_eq!(tmp_file_decision(0, false, None), TmpFileDecision::Fresh);
}

#[test]
fn read_and_chunk_steps() {
    // bytes beyond the chunk are not written; the chunk then ends
    assert_eq!(serial_read_step(6, 10, 1, ReadEvent::Data(8)), ReadAction::Write { count: 4, last: true });
    assert_eq!(serial_read_step(0, 10, 1, ReadEvent::Data(3)), ReadAction::Write { count: 3, last: false });
    assert_eq!(serial_read_step(10, 10, 1, ReadEvent::Data(3)), ReadAction::EndOfChunk);
    assert_eq!(serial_read_step(3, 10, 1, ReadEvent::End), ReadAction::EndOfChunk);
    // a failed read after some bytes moves on; with none it is retried
    assert_eq!(serial_read_step(3, 10, 1, ReadEvent::Failed), ReadAction::EndOfChunk);
    assert_eq!(serial_read_step(0, 10, 2, ReadEvent::Failed), ReadAction::RetryAfterSecs(2));
    assert_eq!(serial_read_step(0, 10, DOWNLOAD_MAX_RETRIES, ReadEvent::Failed), ReadAction::GiveUp);
    assert_eq!(part_read_step(3, 10, 1, ReadEvent::Failed), ReadAction::RetryAfterSecs(1));
    assert_eq!(part_read_step(3, 10, 6, ReadEvent::Failed), ReadAction::GiveUp);
    // an empty chunk ends the download when it is complete, else it is retried
    assert_eq!(serial_chunk_outcome(0, 100, Some(100), 1), ChunkOutcome::Done(0));
    assert_eq!(serial_chunk_outcome(0, 50, Some(100), 1), ChunkOutcome::RetryAfterSecs(1));
    assert_eq!(serial_chunk_outcome(0, 50, None, 6), ChunkOutcome::GiveUp);
    assert_eq!(serial_chunk_outcome(7, 57, Some(100), 6), ChunkOutcome::Done(7));
    assert_eq!(part_chunk_outcome(10, 10, 6), ChunkOutcome::Done(10));
    assert_eq!(part_chunk_outcome(9, 10, 3), ChunkOutcome::RetryAfterSecs(3));
    assert_eq!(part_chunk_outcome(9, 10, 6), ChunkOutcome::GiveUp);
}

#[test]
fn parallel_plan_needs_two_parts() {
    assert!(!parallel_plan_usable(0));
    assert!(!parallel_plan_usable(1));
    assert!(parallel_plan_usable(2));
    assert!(parallel_plan_usable(9));
}
