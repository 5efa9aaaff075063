//! Memory accounting for document processing and size limits.
use vstd::prelude::*;
use vstd::utf8::*;
use vstd::string::StringSliceAdditionalSpecFns;
use crate::limits::{CHUNK_SIZE, LARGE_DOCUMENT_WARNING, MAX_CONCURRENT_DOCUMENTS, MAX_DOCUMENT_SIZE};

verus! {

/// Errors of the memory limits.
#[derive(Debug, Clone, Copy, PartialEq, Eq)]
pub enum MemoryError {
    /// An allocation was refused because `limit` documents are in progress.
    TooManyDocuments { limit: usize },
    /// Content of `size` bytes exceeds the maximum of `max` bytes.
    ContentTooLarge { size: usize, max: usize },
}

/// Memory usage tracker for document processing: bytes currently
/// allocated, the highest value that ever reached, and the number of
/// documents being processed.
#[derive(Debug)]
pub struct MemoryTracker {
    current_usage: usize,
    peak_usage: usize,
    active_documents: usize,
}

/// An allocation of `size` bytes recorded by a tracker; hand it back with
/// [`MemoryTracker::release`].
#[derive(Debug)]
pub struct MemoryAllocation {
    size: usize,
}

/// Marks one document in progress; hand it back with
/// [`MemoryTracker::finish_document`].
#[derive(Debug)]
pub struct DocumentProcessingGuard {}

impl MemoryAllocation {
    pub closed spec fn spec_size(&self) -> usize {
        self.size
    }

    /// The number of bytes of this allocation.
    pub fn size(&self) -> (res: usize)
        ensures
            res == self.spec_size(),
    {
        self.size
    }
}

/// The counters of a [`MemoryTracker`].
#[derive(Debug, Clone, Copy, PartialEq, Eq)]
pub struct TrackerState {
    /// Bytes currently allocated.
    pub current: usize,
    /// Highest value `current` has reached.
    pub peak: usize,
    /// Documents in progress.
    pub active: usize,
}

/// The counters after an allocation of `size` bytes: refused (unchanged)
/// while `MAX_CONCURRENT_DOCUMENTS` or more documents are in progress.
pub open spec fn allocated(s: TrackerState, size: usize) -> TrackerState {
    if s.active >= MAX_CONCURRENT_DOCUMENTS {
        s
    } else {
        TrackerState {
            current: (s.current + size) as usize,
            peak: if s.peak < s.current + size {
                (s.current + size) as usize
            } else {
                s.peak
            },
            active: s.active,
        }
    }
}

/// `a - b` on `usize`, wrapping around as `usize::wrapping_sub` does.
pub open spec fn wrapping_sub(a: usize, b: usize) -> usize {
    if a >= b {
        (a - b) as usize
    } else {
        (a - b + usize::MAX + 1) as usize
    }
}

/// The counters after giving back `size` bytes.
pub open spec fn released(s: TrackerState, size: usize) -> TrackerState {
    TrackerState { current: wrapping_sub(s.current, size), ..s }
}

/// The counters after a document starts.
pub open spec fn started(s: TrackerState) -> TrackerState {
    TrackerState { active: (s.active + 1) as usize, ..s }
}

/// The counters after a document finishes.
pub open spec fn finished(s: TrackerState) -> TrackerState {
    TrackerState { active: wrapping_sub(s.active, 1), ..s }
}

impl View for MemoryTracker {
    type V = TrackerState;

    closed spec fn view(&self) -> TrackerState {
        TrackerState {
            current: self.current_usage,
            peak: self.peak_usage,
            active: self.active_documents,
        }
    }
}

impl MemoryTracker {
    /// A tracker with nothing allocated and no document in progress.
    pub fn new() -> (res: Self)
        ensures
            res@ == (TrackerState { current: 0, peak: 0, active: 0 }),
    {
        MemoryTracker { current_usage: 0, peak_usage: 0, active_documents: 0 }
    }

    /// Records an allocation of `size` bytes. Refused while
    /// `MAX_CONCURRENT_DOCUMENTS` or more documents are in progress.
    pub fn allocate(&mut self, size: usize) -> (res: Result<MemoryAllocation, MemoryError>)
        requires
            old(self)@.current + size <= usize::MAX,
        ensures
            final(self)@ == allocated(old(self)@, size),
            old(self)@.active >= MAX_CONCURRENT_DOCUMENTS ==> res == Err::<MemoryAllocation, MemoryError>(
                MemoryError::TooManyDocuments { limit: MAX_CONCURRENT_DOCUMENTS },
            ),
            old(self)@.active < MAX_CONCURRENT_DOCUMENTS ==> (res matches Ok(a) && a.spec_size() == size),
    {
        if self.active_documents >= MAX_CONCURRENT_DOCUMENTS {
            return Err(MemoryError::TooManyDocuments { limit: MAX_CONCURRENT_DOCUMENTS });
        }
        let new_total = self.current_usage + size;
        self.current_usage = new_total;
        if new_total > self.peak_usage {
            self.peak_usage = new_total;
        }
        Ok(MemoryAllocation { size })
    }

    /// Gives back an allocation: its bytes are no longer counted. The count
    /// wraps around as the tracker's atomic counter does.
    pub fn release(&mut self, allocation: MemoryAllocation)
        ensures
            final(self)@ == released(old(self)@, allocation.spec_size()),
    {
        self.current_usage = self.current_usage.wrapping_sub(allocation.size);
    }

    /// Starts processing a document.
    pub fn start_document(&mut self) -> (res: DocumentProcessingGuard)
        requires
            old(self)@.active < usize::MAX,
        ensures
            final(self)@ == started(old(self)@),
    {
        self.active_documents = self.active_documents + 1;
        DocumentProcessingGuard {  }
    }

    /// Finishes processing a document. The count wraps around as the
    /// tracker's atomic counter does.
    pub fn finish_document(&mut self, guard: DocumentProcessingGuard)
        ensures
            final(self)@ == finished(old(self)@),
    {
        self.active_documents = self.active_documents.wrapping_sub(1);
    }

    /// Current memory usage in bytes.
    pub fn current_usage(&self) -> (res: usize)
        ensures
            res == self@.current,
    {
        self.current_usage
    }

    /// Peak memory usage in bytes.
    pub fn peak_usage(&self) -> (res: usize)
        ensures
            res == self@.peak,
    {
        self.peak_usage
    }

    /// Number of documents being processed.
    pub fn active_documents(&self) -> (res: usize)
        ensures
            res == self@.active,
    {
        self.active_documents
    }
}

/// An allocation followed by giving it back leaves the usage and the
/// number of documents as they were, whether or not it was refused, and
/// keeps the peak the allocation reached.
pub proof fn law_allocate_release_restores_usage(s: TrackerState, size: usize)
    requires
        s.current + size <= usize::MAX,
    ensures
        s.active < MAX_CONCURRENT_DOCUMENTS ==> released(allocated(s, size), size).current
            == s.current,
        s.active < MAX_CONCURRENT_DOCUMENTS ==> released(allocated(s, size), size).peak == if s.peak
            < s.current + size {
            s.current + size
        } else {
            s.peak as int
        },
        allocated(s, size).active == s.active,
{
}

/// No operation of the tracker lowers the peak usage.
pub proof fn law_peak_never_decreases(s: TrackerState, size: usize)
    ensures
        s.current + size <= usize::MAX ==> allocated(s, size).peak >= s.peak,
        released(s, size).peak == s.peak,
        started(s).peak == s.peak,
        finished(s).peak == s.peak,
{
}

/// Once the peak bounds the usage, it keeps doing so under allocations and
/// under giving back what was counted.
pub proof fn law_peak_bounds_usage(s: TrackerState, size: usize)
    requires
        s.peak >= s.current,
    ensures
        s.current + size <= usize::MAX ==> allocated(s, size).peak >= allocated(s, size).current,
        size <= s.current ==> released(s, size).peak >= released(s, size).current,
        started(s).peak >= started(s).current,
        finished(s).peak >= finished(s).current,
{
}

/// A refused allocation changes nothing.
pub proof fn law_refused_allocation_unchanged(s: TrackerState, size: usize)
    requires
        s.active >= MAX_CONCURRENT_DOCUMENTS,
    ensures
        allocated(s, size) == s,
{
}

/// Starting and then finishing a document restores the counters.
pub proof fn law_start_finish_restores(s: TrackerState)
    requires
        s.active < usize::MAX,
    ensures
        finished(started(s)) == s,
{
}

/// An operation on a tracker: an allocation of some bytes, giving back the
/// allocation at an index among those not yet given back, or a document
/// starting or finishing.
pub enum TrackerOp {
    Allocate(usize),
    Release(usize),
    Start,
    Finish,
}

/// The sum of the sizes of the allocations not yet given back.
pub open spec fn outstanding_sum(s: Seq<usize>) -> int
    decreases s.len(),
{
    if s.len() == 0 {
        0
    } else {
        outstanding_sum(s.drop_last()) + s.last()
    }
}

/// The counters and the sizes of the allocations not yet given back, after
/// one more operation.
pub open spec fn apply_op(st: (TrackerState, Seq<usize>), op: TrackerOp) -> (TrackerState, Seq<usize>) {
    match op {
        TrackerOp::Allocate(n) => if st.0.active >= MAX_CONCURRENT_DOCUMENTS {
            st
        } else {
            (allocated(st.0, n), st.1.push(n))
        },
        TrackerOp::Release(i) => (released(st.0, st.1[i as int]), st.1.remove(i as int)),
        TrackerOp::Start => (started(st.0), st.1),
        TrackerOp::Finish => (finished(st.0), st.1),
    }
}

/// Whether an operation may follow: an allocation that fits the counter,
/// the giving back of an allocation not yet given back, a start that fits
/// the counter, or a finish.
pub open spec fn op_allowed(st: (TrackerState, Seq<usize>), op: TrackerOp) -> bool {
    match op {
        TrackerOp::Allocate(n) => st.0.current + n <= usize::MAX,
        TrackerOp::Release(i) => i < st.1.len(),
        TrackerOp::Start => st.0.active < usize::MAX,
        TrackerOp::Finish => true,
    }
}

/// A new tracker after the operations `ops`, with the sizes of the
/// allocations not yet given back.
pub open spec fn run_ops(ops: Seq<TrackerOp>) -> (TrackerState, Seq<usize>)
    decreases ops.len(),
{
    if ops.len() == 0 {
        (TrackerState { current: 0, peak: 0, active: 0 }, Seq::empty())
    } else {
        apply_op(run_ops(ops.drop_last()), ops.last())
    }
}

/// Whether every operation of `ops` may follow the ones before it.
pub open spec fn ops_allowed(ops: Seq<TrackerOp>) -> bool {
    forall|k: int| 0 <= k < ops.len() ==> #[trigger] op_allowed(run_ops(ops.take(k)), ops[k])
}

proof fn lemma_outstanding_remove(s: Seq<usize>, i: int)
    requires
        0 <= i < s.len(),
    ensures
        s[i] <= outstanding_sum(s),
        outstanding_sum(s.remove(i)) == outstanding_sum(s) - s[i],
    decreases s.len(),
{
    lemma_outstanding_nonneg(s.drop_last());
    if i == s.len() - 1 {
        assert(s.remove(i) =~= s.drop_last());
    } else {
        lemma_outstanding_remove(s.drop_last(), i);
        assert(s.remove(i).drop_last() =~= s.drop_last().remove(i));
        assert(s.remove(i).last() == s.last());
    }
}

proof fn lemma_outstanding_nonneg(s: Seq<usize>)
    ensures
        outstanding_sum(s) >= 0,
    decreases s.len(),
{
    if s.len() > 0 {
        lemma_outstanding_nonneg(s.drop_last());
    }
}

proof fn lemma_ops_allowed_prefix(ops: Seq<TrackerOp>)
    requires
        ops.len() > 0,
        ops_allowed(ops),
    ensures
        ops_allowed(ops.drop_last()),
        op_allowed(run_ops(ops.drop_last()), ops.last()),
{
    let p = ops.drop_last();
    assert forall|k: int| 0 <= k < p.len() implies #[trigger] op_allowed(run_ops(p.take(k)), p[k]) by {
        assert(p.take(k) =~= ops.take(k));
        assert(op_allowed(run_ops(ops.take(k)), ops[k]));
    }
    assert(ops.take(ops.len() - 1) =~= p);
    assert(op_allowed(run_ops(ops.take(ops.len() - 1)), ops[ops.len() - 1]));
}

/// After any allowed sequence of operations on a new tracker, the usage is
/// the sum of the allocations not yet given back, the peak bounds the
/// usage, and the peak is no lower than after any earlier step: the
/// recorded peak never decreases.
pub proof fn law_tracker_runs(ops: Seq<TrackerOp>)
    requires
        ops_allowed(ops),
    ensures
        run_ops(ops).0.current == outstanding_sum(run_ops(ops).1),
        run_ops(ops).0.peak >= run_ops(ops).0.current,
        forall|k: int| 0 <= k <= ops.len() ==> #[trigger] run_ops(ops.take(k)).0.peak <= run_ops(ops).0.peak,
    decreases ops.len(),
{
    if ops.len() == 0 {
        assert forall|k: int| 0 <= k <= ops.len() implies #[trigger] run_ops(ops.take(k)).0.peak <= run_ops(ops).0.peak by {
            assert(ops.take(k) =~= ops);
        }
    } else {
        let p = ops.drop_last();
        lemma_ops_allowed_prefix(ops);
        law_tracker_runs(p);
        let st = run_ops(p);
        lemma_outstanding_nonneg(st.1);
        match ops.last() {
            TrackerOp::Allocate(n) => {
                if st.0.active < MAX_CONCURRENT_DOCUMENTS {
                    assert(st.1.push(n).drop_last() =~= st.1);
                }
            },
            TrackerOp::Release(i) => {
                lemma_outstanding_remove(st.1, i as int);
            },
            _ => {},
        }
        assert forall|k: int| 0 <= k <= ops.len() implies #[trigger] run_ops(ops.take(k)).0.peak <= run_ops(ops).0.peak by {
            if k == ops.len() {
                assert(ops.take(k) =~= ops);
            } else {
                assert(ops.take(k) =~= p.take(k));
                assert(run_ops(p.take(k)).0.peak <= st.0.peak);
            }
        }
    }
}

impl Default for MemoryTracker {
    fn default() -> (res: Self)
        ensures
            res@ == (TrackerState { current: 0, peak: 0, active: 0 }),
    {
        Self::new()
    }
}

/// Accepts content of at most `MAX_DOCUMENT_SIZE` bytes.
pub fn validate_content_size(content: &[u8]) -> (res: Result<(), MemoryError>)
    ensures
        content.len() <= MAX_DOCUMENT_SIZE ==> res is Ok,
        content.len() > MAX_DOCUMENT_SIZE ==> res == Err::<(), MemoryError>(
            MemoryError::ContentTooLarge { size: content.len(), max: MAX_DOCUMENT_SIZE },
        ),
{
    if content.len() > MAX_DOCUMENT_SIZE {
        return Err(MemoryError::ContentTooLarge { size: content.len(), max: MAX_DOCUMENT_SIZE });
    }
    Ok(())
}

/// How a file's size stands to the document limits.
#[derive(Debug, Clone, Copy, PartialEq, Eq, Structural)]
pub enum FileSizeCheck {
    /// Within the limits.
    Accepted,
    /// Accepted, but above the size that calls for a warning.
    Large,
    /// Above the largest size processed.
    TooLarge,
}

/// How a file of `size` bytes stands to the document limits: refused above
/// `MAX_DOCUMENT_SIZE`, to be warned about above `LARGE_DOCUMENT_WARNING`.
pub fn check_file_size(size: u64) -> (res: FileSizeCheck)
    ensures
        res == if size > MAX_DOCUMENT_SIZE {
            FileSizeCheck::TooLarge
        } else if size > LARGE_DOCUMENT_WARNING {
            FileSizeCheck::Large
        } else {
            FileSizeCheck::Accepted
        },
{
    if size > 52428800u64 {
        FileSizeCheck::TooLarge
    } else if size > 10485760u64 {
        FileSizeCheck::Large
    } else {
        FileSizeCheck::Accepted
    }
}

/// The largest character boundary of `bytes` that is at most `m`.
pub open spec fn boundary_at_most(bytes: Seq<u8>, m: int) -> int
    decreases m,
{
    if m <= 0 {
        0
    } else if is_char_boundary(bytes, m) {
        m
    } else {
        boundary_at_most(bytes, m - 1)
    }
}

/// `text` cut to at most `max_size` bytes, at the last character boundary
/// that fits; unchanged when it already fits.
pub fn truncate_text_safely(text: &str, max_size: usize) -> (res: String)
    ensures
        text.len() <= max_size ==> res@ == text@,
        text.len() > max_size ==> encode_utf8(res@) == encode_utf8(text@).take(
            boundary_at_most(encode_utf8(text@), max_size as int),
        ),
{
    if text.len() <= max_size {
        return text.to_owned();
    }
    proof {
        broadcast use encode_utf8_valid_utf8;
    }
    let ghost bytes = encode_utf8(text@);
    let mut truncate_at = max_size;
    while truncate_at > 0 && !text.is_char_boundary(truncate_at)
        invariant
            truncate_at <= max_size,
            valid_utf8(bytes),
            bytes == encode_utf8(text@),
            boundary_at_most(bytes, max_size as int) == boundary_at_most(bytes, truncate_at as int),
        decreases truncate_at,
    {
        truncate_at -= 1;
    }
    let (head, _tail) = text.split_at(truncate_at);
    let res = head.to_owned();
    res
}

/// Chunk size for streaming content of `content_size` bytes.
pub fn calculate_optimal_chunk_size(content_size: usize) -> (res: usize)
    ensures
        res == if content_size <= 1024 {
            1024
        } else if content_size <= 65536 {
            4096
        } else if content_size <= 1048576 {
            16384
        } else if content_size <= 10485760 {
            65536
        } else {
            CHUNK_SIZE
        },
{
    if content_size <= 1024 {
        1024
    } else if content_size <= 65536 {
        4096
    } else if content_size <= 1048576 {
        16384
    } else if content_size <= 10485760 {
        65536
    } else {
        CHUNK_SIZE
    }
}

} // verus!
