//! Text extraction from content in bounded pieces: the content is cut to
//! the text limit, handed to an extractor whole or in chunks, and the
//! extracted pieces are joined while they fit the limit.
use vstd::prelude::*;
use crate::limits::{CHUNK_SIZE, MAX_POOL_BUFFER_SIZE, MAX_TEXT_SIZE};
use crate::text::{byte_len, lemma_byte_len_encoding, chars_of, append_chars, string_from_chars};

verus! {

/// Extracts text from content with memory bounds.
#[derive(Debug, Clone, Copy)]
pub struct StreamingTextProcessor {
    /// The most bytes of content processed, and of text kept.
    pub max_text_size: usize,
    /// The size of the chunks handed to the extractor.
    pub chunk_size: usize,
}

/// The part of `content` that is processed: its first `max` bytes.
pub open spec fn processed_part(content: Seq<u8>, max: nat) -> Seq<u8> {
    if content.len() <= max {
        content
    } else {
        content.take(max as int)
    }
}

/// Chunk `i` of `c` when cut into pieces of `size` bytes.
pub open spec fn chunk_of(c: Seq<u8>, size: nat, i: nat) -> Seq<u8> {
    let a = i * size;
    let b: int = if a + size <= c.len() { (a + size) as int } else { c.len() as int };
    c.subrange(a as int, b)
}

/// The number of chunks of `len` bytes cut into pieces of `size` bytes.
pub open spec fn chunk_count(len: nat, size: nat) -> nat {
    if size == 0 {
        0
    } else {
        ((len + size - 1) / (size as int)) as nat
    }
}

/// The text joined from the pieces `outs` within `max` bytes, and whether
/// joining stopped: each piece is appended while it fits; the first that
/// does not fit stops the joining.
pub open spec fn joined(outs: Seq<Seq<char>>, max: nat) -> (Seq<char>, bool)
    decreases outs.len(),
{
    if outs.len() == 0 {
        (Seq::empty(), false)
    } else {
        let (acc, stopped) = joined(outs.drop_last(), max);
        if stopped || byte_len(acc) + byte_len(outs.last()) > max {
            (acc, true)
        } else {
            (acc + outs.last(), false)
        }
    }
}

/// Whether the extractor `f` may give `r` for the bytes `x`.
pub open spec fn gives<F: Fn(&[u8]) -> Result<String, E>, E>(f: F, x: Seq<u8>, r: Result<String, E>) -> bool {
    exists|b: &[u8]| #![trigger call_ensures(f, (b,), r)] b@ == x && call_ensures(f, (b,), r)
}

/// Whether the extractor `f` may give the text `t` for the bytes `x`.
pub open spec fn gives_text<F: Fn(&[u8]) -> Result<String, E>, E>(f: F, x: Seq<u8>, t: Seq<char>) -> bool {
    exists|b: &[u8], r: Result<String, E>|
        #![trigger call_ensures(f, (b,), r)]
        b@ == x && call_ensures(f, (b,), r) && (r matches Ok(s) && s@ == t)
}

/// Whether the extractor `f` may give the texts `outs` for the first chunks
/// of `c`, one for each.
pub open spec fn chunk_texts<F: Fn(&[u8]) -> Result<String, E>, E>(f: F, c: Seq<u8>, size: nat, outs: Seq<Seq<char>>) -> bool {
    forall|i: int| 0 <= i < outs.len() ==> gives_text(f, chunk_of(c, size, i as nat), #[trigger] outs[i])
}

/// Whether `res` is what processing `content` with `p` and the extractor
/// `f` may give. Content within one chunk goes to the extractor whole.
/// Larger content goes in chunks, in order; the texts are joined while they
/// fit the limit, and the first text that does not fit ends the processing;
/// the first error of the extractor ends it with that error.
pub open spec fn is_processing_of<F: Fn(&[u8]) -> Result<String, E>, E>(
    p: StreamingTextProcessor,
    content: Seq<u8>,
    f: F,
    res: Result<String, E>,
) -> bool {
    let c = processed_part(content, p.max_text_size as nat);
    let size = p.chunk_size as nat;
    if c.len() <= size {
        gives(f, c, res)
    } else {
        match res {
            Ok(s) => exists|outs: Seq<Seq<char>>|
                #![trigger chunk_texts(f, c, size, outs)]
                {
                    &&& chunk_texts(f, c, size, outs)
                    &&& s@ == joined(outs, p.max_text_size as nat).0
                    &&& outs.len() <= chunk_count(c.len(), size)
                    &&& joined(outs, p.max_text_size as nat).1 || outs.len() == chunk_count(c.len(), size)
                    &&& outs.len() > 0 ==> !joined(outs.drop_last(), p.max_text_size as nat).1
                },
            Err(e) => exists|outs: Seq<Seq<char>>|
                #![trigger chunk_texts(f, c, size, outs)]
                {
                    &&& chunk_texts(f, c, size, outs)
                    &&& outs.len() < chunk_count(c.len(), size)
                    &&& !joined(outs, p.max_text_size as nat).1
                    &&& gives(f, chunk_of(c, size, outs.len()), Err(e))
                },
        }
    }
}

impl StreamingTextProcessor {
    /// A processor with the default limits: 10 MB of text, 64 KB chunks.
    pub fn new() -> (res: Self)
        ensures
            res.max_text_size == MAX_TEXT_SIZE,
            res.chunk_size == CHUNK_SIZE,
    {
        StreamingTextProcessor { max_text_size: MAX_TEXT_SIZE, chunk_size: CHUNK_SIZE }
    }

    /// A processor with the given limits.
    pub fn with_limits(max_text_size: usize, chunk_size: usize) -> (res: Self)
        ensures
            res.max_text_size == max_text_size,
            res.chunk_size == chunk_size,
    {
        StreamingTextProcessor { max_text_size, chunk_size }
    }

    /// Extracts the text of `content` with `processor`, within the limits:
    /// only the first `max_text_size` bytes are processed; content within
    /// one chunk is handed over whole, larger content chunk by chunk, and
    /// the extracted texts are joined while they fit `max_text_size` bytes.
    /// The first error of the extractor is returned.
    pub fn process_bytes<F, E>(&self, content: &[u8], processor: F) -> (res: Result<String, E>)
        where
            F: Fn(&[u8]) -> Result<String, E>,
        requires
            self.chunk_size > 0 || content.len() == 0 || self.max_text_size == 0,
            forall|x: &[u8]| call_requires(processor, (x,)),
        ensures
            is_processing_of(*self, content@, processor, res),
    {
        let n: usize = if content.len() <= self.max_text_size { content.len() } else { self.max_text_size };
        let part = vstd::slice::slice_subrange(content, 0, n);
        let ghost c = processed_part(content@, self.max_text_size as nat);
        assert(content@.subrange(0, content@.len() as int) == content@);
        assert(content@.subrange(0, n as int) == content@.take(n as int));
        assert(part@ == c);
        if n <= self.chunk_size {
            let r = processor(part);
            assert(gives(processor, c, r));
            return r;
        }
        let size = self.chunk_size;
        let ghost count = chunk_count(n as nat, size as nat);
        let mut acc: Vec<char> = Vec::new();
        let mut acc_len: usize = 0;
        let ghost mut outs: Seq<Seq<char>> = Seq::empty();
        let mut start: usize = 0;
        let mut i: usize = 0;
        proof {
            lemma_chunk_count_bound(n as nat, size as nat, 0);
        }
        while start < n
            invariant
                n == part@.len(),
                part@ == c,
                c == processed_part(content@, self.max_text_size as nat),
                size == self.chunk_size,
                size > 0,
                n > size,
                count == chunk_count(n as nat, size as nat),
                start <= n,
                i == outs.len(),
                i <= count,
                start < n ==> start == i * size && i < count,
                start >= n ==> start == n && i == count,
                forall|x: &[u8]| call_requires(processor, (x,)),
                chunk_texts(processor, c, size as nat, outs),
                acc@ == joined(outs, self.max_text_size as nat).0,
                !joined(outs, self.max_text_size as nat).1,
                acc_len == byte_len(acc@),
                acc_len <= self.max_text_size,
            decreases n - start,
        {
            assert(i <= i * size) by (nonlinear_arith)
                requires
                    size >= 1,
            ;
            let end: usize = if size <= n - start { start + size } else { n };
            let chunk = vstd::slice::slice_subrange(part, start, end);
            assert(i * size + size == (i + 1) * size) by (nonlinear_arith);
            assert(chunk@ == chunk_of(c, size as nat, i as nat));
            let r = processor(chunk);
            match r {
                Ok(t) => {
                    let t_len = t.as_str().as_bytes().len();
                    proof {
                        lemma_byte_len_encoding(t@);
                    }
                    let ghost next = outs.push(t@);
                    assert(next.drop_last() == outs);
                    assert(gives_text(processor, chunk_of(c, size as nat, i as nat), t@));
                    assert(chunk_texts(processor, c, size as nat, next)) by {
                        assert forall|k: int| 0 <= k < next.len() implies gives_text(processor, chunk_of(c, size as nat, k as nat), #[trigger] next[k]) by {
                            if k < outs.len() {
                                assert(next[k] == outs[k]);
                            }
                        }
                    }
                    if t_len > self.max_text_size - acc_len {
                        assert(joined(next, self.max_text_size as nat).1);
                        assert(joined(next, self.max_text_size as nat).0 == acc@);
                        proof {
                            lemma_chunk_count_bound(n as nat, size as nat, i as nat);
                        }
                        assert(next.len() > 0 ==> !joined(next.drop_last(), self.max_text_size as nat).1);
                        let out = string_from_chars(&acc);
                        assert(out@ == joined(next, self.max_text_size as nat).0);
                        assert(next.len() <= chunk_count(c.len(), size as nat));
                        assert(c.len() > self.chunk_size);
                        assert(is_processing_of(*self, content@, processor, Ok::<String, E>(out)));
                        return Ok(out);
                    }
                    append_chars(&mut acc, &chars_of(t.as_str()));
                    proof {
                        crate::text::lemma_byte_len_concat(joined(outs, self.max_text_size as nat).0, t@);
                    }
                    acc_len = acc_len + t_len;
                    proof {
                        outs = next;
                    }
                },
                Err(e) => {
                    assert(gives(processor, chunk_of(c, size as nat, outs.len()), Err(e)));
                    assert(outs.len() < chunk_count(c.len(), size as nat));
                    assert(is_processing_of(*self, content@, processor, Err::<String, E>(e)));
                    return Err(e);
                },
            }
            proof {
                lemma_chunk_step(n as nat, size as nat, i as nat);
            }
            start = end;
            i = i + 1;
        }
        Ok(string_from_chars(&acc))
    }
}

impl StreamingTextProcessor {
    /// Appends the text extracted from one piece of a stream to `acc` if the
    /// result stays within the text limit; says whether it did. Reading
    /// stops at the first piece that does not fit.
    pub fn append_within_limit(&self, acc: &mut String, text: &str) -> (res: bool)
        ensures
            res == (byte_len(old(acc)@) + byte_len(text@) <= self.max_text_size),
            res ==> final(acc)@ == old(acc)@ + text@,
            !res ==> final(acc)@ == old(acc)@,
    {
        let a = acc.as_str().as_bytes().len();
        let t = text.as_bytes().len();
        proof {
            lemma_byte_len_encoding(acc@);
            lemma_byte_len_encoding(text@);
        }
        if a > self.max_text_size || t > self.max_text_size - a {
            return false;
        }
        let mut joined_chars = chars_of(acc.as_str());
        append_chars(&mut joined_chars, &chars_of(text));
        *acc = string_from_chars(&joined_chars);
        true
    }
}

/// Joining keeps within the limit: the joined text never has more bytes
/// than the limit allows.
pub proof fn law_joined_within_limit(outs: Seq<Seq<char>>, max: nat)
    ensures
        byte_len(joined(outs, max).0) <= max,
    decreases outs.len(),
{
    if outs.len() > 0 {
        law_joined_within_limit(outs.drop_last(), max);
        let (acc, stopped) = joined(outs.drop_last(), max);
        if !stopped && byte_len(acc) + byte_len(outs.last()) <= max {
            crate::text::lemma_byte_len_concat(acc, outs.last());
        }
    }
}

/// Chunk `i` starts before the end exactly when it is one of the chunks.
proof fn lemma_chunk_count_bound(len: nat, size: nat, i: nat)
    requires
        size > 0,
        i * size < len,
    ensures
        i < chunk_count(len, size),
{
    let l = len as int;
    let s = size as int;
    let k = i as int;
    assert((l + s - 1) / s >= k + 1) by (nonlinear_arith)
        requires
            s > 0,
            k * s < l,
    ;
}

/// After chunk `i`, the next start is before the end exactly when more
/// chunks follow.
proof fn lemma_chunk_step(len: nat, size: nat, i: nat)
    requires
        size > 0,
        i * size < len,
    ensures
        (i + 1) * size < len ==> i + 1 < chunk_count(len, size),
        (i + 1) * size >= len ==> i + 1 == chunk_count(len, size),
        i < chunk_count(len, size),
{
    lemma_chunk_count_bound(len, size, i);
    if (i + 1) * size < len {
        lemma_chunk_count_bound(len, size, i + 1);
    } else {
        let l = len as int;
        let s = size as int;
        let k = i as int;
        assert((l + s - 1) / s <= k + 1) by (nonlinear_arith)
            requires
                s > 0,
                l <= (k + 1) * s,
        ;
    }
}


/// The most buffers, and the most strings, a pool keeps.
pub const MAX_POOLED: usize = 16;

/// A pool of emptied byte buffers and strings kept for reuse. It keeps at
/// most 16 of each, only empty ones of at most 1 MB capacity, and with each
/// the capacity it had when it was pooled (a pooled one is not touched, so
/// that stays its capacity).
#[derive(Debug)]
pub struct DocumentMemoryPool {
    buffer_pool: Vec<Vec<u8>>,
    buffer_caps: Vec<usize>,
    string_pool: Vec<String>,
    string_caps: Vec<usize>,
}

/// The index of the first capacity from `i` on that reaches `min`.
pub open spec fn first_fit_from(caps: Seq<usize>, min: usize, i: int) -> Option<int>
    decreases caps.len() - i,
{
    if i < 0 || i >= caps.len() {
        None
    } else if caps[i] >= min {
        Some(i)
    } else {
        first_fit_from(caps, min, i + 1)
    }
}

proof fn lemma_first_fit_in_range(caps: Seq<usize>, min: usize, i: int)
    requires
        0 <= i,
    ensures
        first_fit_from(caps, min, i) matches Some(k) ==> i <= k < caps.len() && caps[k] >= min,
    decreases caps.len() - i,
{
    if i < caps.len() && caps[i] < min {
        lemma_first_fit_in_range(caps, min, i + 1);
    }
}

/// The index of the first capacity that reaches `min`, if any.
pub open spec fn first_fit_spec(caps: Seq<usize>, min: usize) -> Option<int> {
    first_fit_from(caps, min, 0)
}

/// `s` after `Vec::swap_remove(i)`: the last item takes the place of item
/// `i`.
pub open spec fn swap_removed<T>(s: Seq<T>, i: int) -> Seq<T> {
    s.update(i, s.last()).drop_last()
}

/// Whether a returned item of capacity `capacity` is kept by a pool that
/// holds `pooled` items: it fits in 1 MB and the pool has room.
pub open spec fn kept(capacity: usize, pooled: nat) -> bool {
    capacity <= MAX_POOL_BUFFER_SIZE && pooled < MAX_POOLED
}

/// The index of the first of `capacities` that reaches `min_size`.
pub fn first_fit(capacities: &[usize], min_size: usize) -> (res: Option<usize>)
    ensures
        match first_fit_spec(capacities@, min_size) {
            Some(i) => res == Some(i as usize),
            None => res is None,
        },
{
    let mut i: usize = 0;
    while i < capacities.len()
        invariant
            i <= capacities.len(),
            first_fit_from(capacities@, min_size, i as int) == first_fit_spec(capacities@, min_size),
        decreases capacities.len() - i,
    {
        if capacities[i] >= min_size {
            return Some(i);
        }
        i += 1;
    }
    None
}

/// The capacity a new buffer is made with: `min_size`, and at least one
/// chunk.
pub fn new_buffer_capacity(min_size: usize) -> (res: usize)
    ensures
        res == if min_size >= CHUNK_SIZE { min_size } else { CHUNK_SIZE },
{
    if min_size >= CHUNK_SIZE { min_size } else { CHUNK_SIZE }
}

/// The capacity a new string is made with: `min_capacity`, and at least
/// 4096 bytes.
pub fn new_string_capacity(min_capacity: usize) -> (res: usize)
    ensures
        res == if min_capacity >= 4096 { min_capacity } else { 4096 },
{
    if min_capacity >= 4096 { min_capacity } else { 4096 }
}

/// Calls `Vec::capacity`. Its documentation guarantees no less than the
/// length; the allocator decides the rest, so no more is stated.
#[verifier::external_body]
fn buffer_capacity(v: &Vec<u8>) -> (res: usize)
    ensures
        res >= v.len(),
{
    v.capacity()
}

/// Calls `String::capacity`. Its documentation guarantees no less than
/// the length in bytes; the allocator decides the rest, so no more is
/// stated.
#[verifier::external_body]
fn string_capacity(s: &String) -> (res: usize)
    ensures
        res >= byte_len(s@),
{
    s.capacity()
}

/// Calls `String::with_capacity`: an empty string.
#[verifier::external_body]
fn string_with_capacity(n: usize) -> (res: String)
    ensures
        res@ == Seq::<char>::empty(),
{
    String::with_capacity(n)
}

/// Calls `String::clear`: the string becomes empty.
#[verifier::external_body]
fn clear_string(s: &mut String)
    ensures
        final(s)@ == Seq::<char>::empty(),
{
    s.clear()
}

impl View for DocumentMemoryPool {
    /// The capacities of the pooled buffers and of the pooled strings, in
    /// pool order.
    type V = (Seq<usize>, Seq<usize>);

    closed spec fn view(&self) -> (Seq<usize>, Seq<usize>) {
        (self.buffer_caps@, self.string_caps@)
    }
}

impl DocumentMemoryPool {
    /// At most 16 of each are kept, every one kept is empty, and its
    /// recorded capacity is at most 1 MB.
    #[verifier::type_invariant]
    closed spec fn pool_inv(&self) -> bool {
        &&& self.buffer_pool@.len() == self.buffer_caps@.len()
        &&& self.string_pool@.len() == self.string_caps@.len()
        &&& self.buffer_pool@.len() <= MAX_POOLED
        &&& self.string_pool@.len() <= MAX_POOLED
        &&& forall|i: int| 0 <= i < self.buffer_pool@.len() ==> (#[trigger] self.buffer_pool@[i])@.len() == 0
        &&& forall|i: int| 0 <= i < self.string_pool@.len() ==> (#[trigger] self.string_pool@[i])@.len() == 0
        &&& forall|i: int| 0 <= i < self.buffer_caps@.len() ==> #[trigger] self.buffer_caps@[i] <= MAX_POOL_BUFFER_SIZE
        &&& forall|i: int| 0 <= i < self.string_caps@.len() ==> #[trigger] self.string_caps@[i] <= MAX_POOL_BUFFER_SIZE
    }

    /// An empty pool.
    pub fn new() -> (res: Self)
        ensures
            res@ == (Seq::<usize>::empty(), Seq::<usize>::empty()),
    {
        DocumentMemoryPool { buffer_pool: Vec::new(), buffer_caps: Vec::new(), string_pool: Vec::new(), string_caps: Vec::new() }
    }

    /// An empty buffer: the first pooled one whose capacity reaches
    /// `min_size`, taken out of the pool (the last pooled one takes its
    /// place), else a new one made with room for `min_size` bytes and at
    /// least one chunk (`new_buffer_capacity`).
    pub fn get_buffer(&mut self, min_size: usize) -> (res: Vec<u8>)
        ensures
            res@ == Seq::<u8>::empty(),
            final(self)@.1 == old(self)@.1,
            match first_fit_spec(old(self)@.0, min_size) {
                Some(i) => final(self)@.0 == swap_removed(old(self)@.0, i),
                None => final(self)@.0 == old(self)@.0,
            },
    {
        proof {
            use_type_invariant(&*self);
        }
        proof {
            lemma_first_fit_in_range(self.buffer_caps@, min_size, 0);
        }
        match first_fit(self.buffer_caps.as_slice(), min_size) {
            Some(j) => {
                let mut taken = DocumentMemoryPool::new();
                std::mem::swap(&mut taken, self);
                proof {
                    use_type_invariant(&taken);
                }
                let DocumentMemoryPool { buffer_pool: mut pool, buffer_caps: mut caps, string_pool, string_caps } = taken;
                let ghost before = pool@;
                let ghost cbefore = caps@;
                let b = pool.swap_remove(j);
                caps.swap_remove(j);
                assert forall|k: int| 0 <= k < pool@.len() implies (#[trigger] pool@[k])@.len() == 0 by {
                    if k == j as int {
                        assert(pool@[k] == before[before.len() - 1]);
                    } else {
                        assert(pool@[k] == before[k]);
                    }
                }
                assert forall|k: int| 0 <= k < caps@.len() implies #[trigger] caps@[k] <= MAX_POOL_BUFFER_SIZE by {
                    if k == j as int {
                        assert(caps@[k] == cbefore[cbefore.len() - 1]);
                    } else {
                        assert(caps@[k] == cbefore[k]);
                    }
                }
                *self = DocumentMemoryPool { buffer_pool: pool, buffer_caps: caps, string_pool, string_caps };
                b
            },
            None => Vec::with_capacity(new_buffer_capacity(min_size)),
        }
    }

    /// Keeps the emptied `buffer`, whose capacity (as `Vec::capacity` gives
    /// it) is `capacity`, where `kept` allows it; else lets it go.
    pub fn return_buffer_of_capacity(&mut self, buffer: Vec<u8>, capacity: usize)
        requires
            buffer@.len() == 0,
        ensures
            final(self)@.1 == old(self)@.1,
            final(self)@.0 == if kept(capacity, old(self)@.0.len()) {
                old(self)@.0.push(capacity)
            } else {
                old(self)@.0
            },
    {
        proof {
            use_type_invariant(&*self);
        }
        if capacity <= MAX_POOL_BUFFER_SIZE && self.buffer_pool.len() < MAX_POOLED {
            let mut taken = DocumentMemoryPool::new();
            std::mem::swap(&mut taken, self);
            proof {
                use_type_invariant(&taken);
            }
            let DocumentMemoryPool { buffer_pool: mut pool, buffer_caps: mut caps, string_pool, string_caps } = taken;
            let ghost before = pool@;
            let ghost cbefore = caps@;
            pool.push(buffer);
            caps.push(capacity);
            assert forall|k: int| 0 <= k < pool@.len() implies (#[trigger] pool@[k])@.len() == 0 by {
                if k < before.len() {
                    assert(pool@[k] == before[k]);
                }
            }
            assert forall|k: int| 0 <= k < caps@.len() implies #[trigger] caps@[k] <= MAX_POOL_BUFFER_SIZE by {
                if k < cbefore.len() {
                    assert(caps@[k] == cbefore[k]);
                }
            }
            *self = DocumentMemoryPool { buffer_pool: pool, buffer_caps: caps, string_pool, string_caps };
        }
    }

    /// Empties `buffer` and keeps it for reuse, with the capacity
    /// `Vec::capacity` then gives, unless that exceeds 1 MB or the pool
    /// already holds 16 buffers. The capacity is the allocator's, so the
    /// contract states what holds whatever it is.
    pub fn return_buffer(&mut self, buffer: Vec<u8>)
        ensures
            final(self)@.1 == old(self)@.1,
            final(self)@.0 == old(self)@.0 || exists|c: usize| #[trigger] kept(c, old(self)@.0.len())
                && final(self)@.0 == old(self)@.0.push(c),
            old(self)@.0.len() >= MAX_POOLED ==> final(self)@.0 == old(self)@.0,
    {
        let mut buffer = buffer;
        buffer.clear();
        let capacity = buffer_capacity(&buffer);
        self.return_buffer_of_capacity(buffer, capacity);
    }

    /// An empty string: the first pooled one whose capacity reaches
    /// `min_capacity`, taken out of the pool (the last pooled one takes its
    /// place), else a new one made with room for `min_capacity` bytes and at
    /// least 4 KB (`new_string_capacity`).
    pub fn get_string(&mut self, min_capacity: usize) -> (res: String)
        ensures
            res@ == Seq::<char>::empty(),
            final(self)@.0 == old(self)@.0,
            match first_fit_spec(old(self)@.1, min_capacity) {
                Some(i) => final(self)@.1 == swap_removed(old(self)@.1, i),
                None => final(self)@.1 == old(self)@.1,
            },
    {
        proof {
            use_type_invariant(&*self);
        }
        proof {
            lemma_first_fit_in_range(self.string_caps@, min_capacity, 0);
        }
        match first_fit(self.string_caps.as_slice(), min_capacity) {
            Some(j) => {
                let mut taken = DocumentMemoryPool::new();
                std::mem::swap(&mut taken, self);
                proof {
                    use_type_invariant(&taken);
                }
                let DocumentMemoryPool { buffer_pool, buffer_caps, string_pool: mut pool, string_caps: mut caps } = taken;
                let ghost before = pool@;
                let ghost cbefore = caps@;
                let b = pool.swap_remove(j);
                caps.swap_remove(j);
                assert forall|k: int| 0 <= k < pool@.len() implies (#[trigger] pool@[k])@.len() == 0 by {
                    if k == j as int {
                        assert(pool@[k] == before[before.len() - 1]);
                    } else {
                        assert(pool@[k] == before[k]);
                    }
                }
                assert forall|k: int| 0 <= k < caps@.len() implies #[trigger] caps@[k] <= MAX_POOL_BUFFER_SIZE by {
                    if k == j as int {
                        assert(caps@[k] == cbefore[cbefore.len() - 1]);
                    } else {
                        assert(caps@[k] == cbefore[k]);
                    }
                }
                *self = DocumentMemoryPool { buffer_pool, buffer_caps, string_pool: pool, string_caps: caps };
                b
            },
            None => string_with_capacity(new_string_capacity(min_capacity)),
        }
    }

    /// Keeps the emptied `string`, whose capacity (as `String::capacity`
    /// gives it) is `capacity`, where `kept` allows it; else lets it go.
    pub fn return_string_of_capacity(&mut self, string: String, capacity: usize)
        requires
            string@.len() == 0,
        ensures
            final(self)@.0 == old(self)@.0,
            final(self)@.1 == if kept(capacity, old(self)@.1.len()) {
                old(self)@.1.push(capacity)
            } else {
                old(self)@.1
            },
    {
        proof {
            use_type_invariant(&*self);
        }
        if capacity <= MAX_POOL_BUFFER_SIZE && self.string_pool.len() < MAX_POOLED {
            let mut taken = DocumentMemoryPool::new();
            std::mem::swap(&mut taken, self);
            proof {
                use_type_invariant(&taken);
            }
            let DocumentMemoryPool { buffer_pool, buffer_caps, string_pool: mut pool, string_caps: mut caps } = taken;
            let ghost before = pool@;
            let ghost cbefore = caps@;
            pool.push(string);
            caps.push(capacity);
            assert forall|k: int| 0 <= k < pool@.len() implies (#[trigger] pool@[k])@.len() == 0 by {
                if k < before.len() {
                    assert(pool@[k] == before[k]);
                }
            }
            assert forall|k: int| 0 <= k < caps@.len() implies #[trigger] caps@[k] <= MAX_POOL_BUFFER_SIZE by {
                if k < cbefore.len() {
                    assert(caps@[k] == cbefore[k]);
                }
            }
            *self = DocumentMemoryPool { buffer_pool, buffer_caps, string_pool: pool, string_caps: caps };
        }
    }

    /// Empties `string` and keeps it for reuse, with the capacity
    /// `String::capacity` then gives, unless that exceeds 1 MB or the pool
    /// already holds 16 strings. The capacity is the allocator's, so the
    /// contract states what holds whatever it is.
    pub fn return_string(&mut self, string: String)
        ensures
            final(self)@.0 == old(self)@.0,
            final(self)@.1 == old(self)@.1 || exists|c: usize| #[trigger] kept(c, old(self)@.1.len())
                && final(self)@.1 == old(self)@.1.push(c),
            old(self)@.1.len() >= MAX_POOLED ==> final(self)@.1 == old(self)@.1,
    {
        let mut string = string;
        clear_string(&mut string);
        let capacity = string_capacity(&string);
        self.return_string_of_capacity(string, capacity);
    }

    /// The number of pooled buffers.
    pub fn pooled_buffers(&self) -> (res: usize)
        ensures
            res == self@.0.len(),
            res <= MAX_POOLED,
    {
        proof {
            use_type_invariant(self);
        }
        self.buffer_pool.len()
    }

    /// The number of pooled strings.
    pub fn pooled_strings(&self) -> (res: usize)
        ensures
            res == self@.1.len(),
            res <= MAX_POOLED,
    {
        proof {
            use_type_invariant(self);
        }
        self.string_pool.len()
    }
}

} // verus!
