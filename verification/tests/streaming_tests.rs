use ats_scanner::streaming::{
    first_fit, new_buffer_capacity, new_string_capacity, DocumentMemoryPool, StreamingTextProcessor,
};

fn lossy(chunk: &[u8]) -> Result<String, String> {
    Ok(String::from_utf8_lossy(chunk).to_string())
}

#[test]
fn small_content_is_processed_whole() {
    let p = StreamingTextProcessor::new();
    assert_eq!(p.max_text_size, 10 * 1024 * 1024);
    assert_eq!(p.chunk_size, 64 * 1024);
    let text = p.process_bytes(b"Hello, world! This is test content.", lossy);
    assert_eq!(text, Ok("Hello, world! This is test content.".to_string()));
}

#[test]
fn large_content_is_cut_and_chunked() {
    let p = StreamingTextProcessor::with_limits(10, 4);
    assert_eq!(p.process_bytes(b"abcdefghijklmnop", lossy), Ok("abcdefghij".to_string()));
    let seen = std::cell::RefCell::new(Vec::new());
    let recorded = p.process_bytes(b"abcdefghij", |c: &[u8]| {
        seen.borrow_mut().push(c.to_vec());
        lossy(c)
    });
    assert_eq!(recorded, Ok("abcdefghij".to_string()));
    assert_eq!(seen.into_inner(), vec![b"abcd".to_vec(), b"efgh".to_vec(), b"ij".to_vec()]);
}

#[test]
fn joining_stops_at_the_first_text_that_does_not_fit() {
    let p = StreamingTextProcessor::with_limits(10, 4);
    let doubled = p.process_bytes(b"abcdefghij", |c: &[u8]| {
        let s = String::from_utf8_lossy(c).to_string();
        Ok::<String, String>(format!("{}{}", s, s))
    });
    assert_eq!(doubled, Ok("abcdabcd".to_string()));
}

#[test]
fn first_extractor_error_is_returned() {
    let p = StreamingTextProcessor::with_limits(100, 2);
    let r = p.process_bytes(b"aabbccdd", |c: &[u8]| {
        if c == b"cc" {
            Err(format!("bad chunk {}", String::from_utf8_lossy(c)))
        } else {
            lossy(c)
        }
    });
    assert_eq!(r, Err("bad chunk cc".to_string()));
}

#[test]
fn empty_content_with_zero_chunks() {
    let p = StreamingTextProcessor::with_limits(100, 0);
    assert_eq!(p.process_bytes(b"", lossy), Ok(String::new()));
}

#[test]
fn test_memory_pool() {
    let mut pool = DocumentMemoryPool::new();

    let buffer = pool.get_buffer(1024);
    assert!(buffer.capacity() >= 1024);

    pool.return_buffer(buffer);

    let string = pool.get_string(512);
    assert!(string.capacity() >= 512);

    pool.return_string(string);
}

#[test]
fn pooled_buffers_are_reused_empty_and_bounded() {
    let mut pool = DocumentMemoryPool::new();
    let mut b = pool.get_buffer(10);
    b.extend_from_slice(b"data");
    pool.return_buffer(b);
    assert_eq!(pool.pooled_buffers(), 1);
    let again = pool.get_buffer(10);
    assert!(again.is_empty());
    assert_eq!(pool.pooled_buffers(), 0);
    for _ in 0..20 {
        pool.return_buffer(Vec::with_capacity(8));
    }
    assert_eq!(pool.pooled_buffers(), 16);
    // a buffer larger than 1 MB is not kept
    let mut small = DocumentMemoryPool::new();
    small.return_buffer(Vec::with_capacity(2 * 1024 * 1024));
    assert_eq!(small.pooled_buffers(), 0);
    let s = small.get_string(100);
    assert!(s.is_empty());
    assert!(s.capacity() >= 4096);
}

#[test]
fn pieces_are_appended_while_they_fit() {
    let p = StreamingTextProcessor::with_limits(8, 4);
    let mut acc = String::from("abc");
    assert!(p.append_within_limit(&mut acc, "defgh"));
    assert_eq!(acc, "abcdefgh");
    assert!(!p.append_within_limit(&mut acc, "i"));
    assert_eq!(acc, "abcdefgh");
    assert!(p.append_within_limit(&mut acc, ""));
}

#[test]
fn first_fitting_capacity_is_chosen() {
    assert_eq!(first_fit(&[100, 5000, 9000], 4096), Some(1));
    assert_eq!(first_fit(&[100, 200], 4096), None);
    assert_eq!(first_fit(&[], 0), None);
    assert_eq!(first_fit(&[0], 0), Some(0));
}

#[test]
fn new_items_are_made_large_enough() {
    assert_eq!(new_buffer_capacity(10), 64 * 1024);
    assert_eq!(new_buffer_capacity(100_000), 100_000);
    assert_eq!(new_string_capacity(512), 4096);
    assert_eq!(new_string_capacity(10_000), 10_000);
    let mut pool = DocumentMemoryPool::new();
    assert!(pool.get_buffer(10).capacity() >= 64 * 1024);
    assert!(pool.get_string(512).capacity() >= 4096);
}

#[test]
fn the_first_large_enough_buffer_leaves_the_pool() {
    let mut pool = DocumentMemoryPool::new();
    pool.return_buffer_of_capacity(Vec::new(), 100);
    pool.return_buffer_of_capacity(Vec::new(), 5000);
    pool.return_buffer_of_capacity(Vec::new(), 9000);
    // too large, not kept
    pool.return_buffer_of_capacity(Vec::new(), 2 * 1024 * 1024);
    assert_eq!(pool.pooled_buffers(), 3);
    let _ = pool.get_buffer(4096);
    assert_eq!(pool.pooled_buffers(), 2);
    // 5000 left; 9000 took its place: a request for 6000 finds it
    let _ = pool.get_buffer(6000);
    assert_eq!(pool.pooled_buffers(), 1);
    // only 100 remains; a larger request leaves the pool as it is
    let _ = pool.get_buffer(6000);
    assert_eq!(pool.pooled_buffers(), 1);
    pool.return_string_of_capacity(String::new(), 4096);
    assert_eq!(pool.pooled_strings(), 1);
    let _ = pool.get_string(4096);
    assert_eq!(pool.pooled_strings(), 0);
}
