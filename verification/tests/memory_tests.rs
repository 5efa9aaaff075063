use ats_scanner::limits::{CHUNK_SIZE, MAX_CONCURRENT_DOCUMENTS, MAX_DOCUMENT_SIZE};
use ats_scanner::memory::{
    calculate_optimal_chunk_size, check_file_size, truncate_text_safely, FileSizeCheck, validate_content_size, MemoryError, MemoryTracker,
};
use ats_scanner::streaming::StreamingTextProcessor;

#[test]
fn test_memory_tracker() {
    let mut tracker = MemoryTracker::new();

    assert_eq!(tracker.current_usage(), 0);
    assert_eq!(tracker.active_documents(), 0);

    let allocation = tracker.allocate(1024).unwrap();
    assert_eq!(tracker.current_usage(), 1024);
    assert_eq!(allocation.size(), 1024);

    let guard = tracker.start_document();
    assert_eq!(tracker.active_documents(), 1);

    tracker.finish_document(guard);
    tracker.release(allocation);
    assert_eq!(tracker.active_documents(), 0);
    assert_eq!(tracker.current_usage(), 0);
}

#[test]
fn test_streaming_processor() {
    let processor = StreamingTextProcessor::new();
    let content = b"Hello, world! This is test content.";
    let result = processor
        .process_bytes(content, |chunk: &[u8]| -> Result<String, String> {
            Ok(String::from_utf8_lossy(chunk).to_string())
        })
        .unwrap();
    assert_eq!(result, "Hello, world! This is test content.");
}

#[test]
fn test_size_validation() {
    let small_content = b"small content";
    assert!(validate_content_size(small_content).is_ok());

    let long_text = "a".repeat(1000);
    let truncated = truncate_text_safely(&long_text, 500);
    assert_eq!(truncated.len(), 500);
}

#[test]
fn peak_stays_and_release_restores_usage() {
    let mut tracker = MemoryTracker::new();
    let a = tracker.allocate(300).unwrap();
    let b = tracker.allocate(200).unwrap();
    assert_eq!(tracker.peak_usage(), 500);
    tracker.release(b);
    assert_eq!(tracker.current_usage(), 300);
    assert_eq!(tracker.peak_usage(), 500);
    tracker.release(a);
    assert_eq!(tracker.current_usage(), 0);
    assert_eq!(tracker.peak_usage(), 500);
}

#[test]
fn allocation_refused_while_too_many_documents() {
    let mut tracker = MemoryTracker::new();
    let mut guards = Vec::new();
    for _ in 0..MAX_CONCURRENT_DOCUMENTS {
        guards.push(tracker.start_document());
    }
    assert_eq!(
        tracker.allocate(10).unwrap_err(),
        MemoryError::TooManyDocuments { limit: MAX_CONCURRENT_DOCUMENTS }
    );
    assert_eq!(tracker.current_usage(), 0);
    assert_eq!(tracker.peak_usage(), 0);
    tracker.finish_document(guards.pop().unwrap());
    assert!(tracker.allocate(10).is_ok());
    assert_eq!(tracker.current_usage(), 10);
}

#[test]
fn oversized_content_is_refused() {
    let big = vec![0u8; MAX_DOCUMENT_SIZE + 1];
    assert_eq!(
        validate_content_size(&big),
        Err(MemoryError::ContentTooLarge { size: MAX_DOCUMENT_SIZE + 1, max: MAX_DOCUMENT_SIZE })
    );
    let exact = vec![0u8; MAX_DOCUMENT_SIZE];
    assert!(validate_content_size(&exact).is_ok());
}

#[test]
fn truncation_keeps_whole_characters() {
    // "é" takes two bytes: cutting at 3 bytes keeps "aé"
    assert_eq!(truncate_text_safely("aéb", 3), "aé");
    // cutting at 2 bytes falls back to the boundary before "é"
    assert_eq!(truncate_text_safely("aéb", 2), "a");
    assert_eq!(truncate_text_safely("short", 10), "short");
    assert_eq!(truncate_text_safely("€", 2), "");
}

#[test]
fn chunk_sizes_by_content_size() {
    assert_eq!(calculate_optimal_chunk_size(0), 1024);
    assert_eq!(calculate_optimal_chunk_size(1024), 1024);
    assert_eq!(calculate_optimal_chunk_size(1025), 4096);
    assert_eq!(calculate_optimal_chunk_size(65536), 4096);
    assert_eq!(calculate_optimal_chunk_size(1048576), 16384);
    assert_eq!(calculate_optimal_chunk_size(10485760), 65536);
    assert_eq!(calculate_optimal_chunk_size(10485761), CHUNK_SIZE);
}

#[test]
fn file_sizes_against_the_limits() {
    assert_eq!(check_file_size(0), FileSizeCheck::Accepted);
    assert_eq!(check_file_size(10 * 1024 * 1024), FileSizeCheck::Accepted);
    assert_eq!(check_file_size(10 * 1024 * 1024 + 1), FileSizeCheck::Large);
    assert_eq!(check_file_size(50 * 1024 * 1024), FileSizeCheck::Large);
    assert_eq!(check_file_size(50 * 1024 * 1024 + 1), FileSizeCheck::TooLarge);
}
