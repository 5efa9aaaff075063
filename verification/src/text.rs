//! Character-level text utilities with mathematical specifications.
use vstd::prelude::*;

verus! {

/// Unicode `White_Space` property, as used by `char::is_whitespace`.
pub open spec fn is_ws(c: char) -> bool {
    let u = c as u32;
    ||| (0x09 <= u && u <= 0x0d)
    ||| u == 0x20
    ||| u == 0x85
    ||| u == 0xa0
    ||| u == 0x1680
    ||| (0x2000 <= u && u <= 0x200a)
    ||| u == 0x2028
    ||| u == 0x2029
    ||| u == 0x202f
    ||| u == 0x205f
    ||| u == 0x3000
}

/// Whether `c` is a whitespace character.
pub fn is_whitespace_char(c: char) -> (res: bool)
    ensures
        res == is_ws(c),
{
    let u = c as u32;
    (0x09 <= u && u <= 0x0d) || u == 0x20 || u == 0x85 || u == 0xa0 || u == 0x1680 || (0x2000
        <= u && u <= 0x200a) || u == 0x2028 || u == 0x2029 || u == 0x202f || u == 0x205f || u
        == 0x3000
}

/// The characters of `s`, in order.
pub fn chars_of(s: &str) -> (res: Vec<char>)
    ensures
        res@ == s@,
{
    let mut v: Vec<char> = Vec::new();
    for c in it: s.chars()
        invariant
            v@ == it.seq().take(it.index() as int),
    {
        v.push(c);
    }
    v
}

/// Appends one character to a string (`String::push`).
#[verifier::external_body]
pub(crate) fn push_char(s: &mut String, c: char)
    ensures
        final(s)@ == old(s)@.push(c),
{
    s.push(c);
}

/// Builds a string from a sequence of characters.
pub fn string_from_chars(v: &[char]) -> (res: String)
    ensures
        res@ == v@,
{
    let mut s = String::new();
    let mut i: usize = 0;
    while i < v.len()
        invariant
            i <= v.len(),
            s@ == v@.take(i as int),
        decreases v.len() - i,
    {
        push_char(&mut s, v[i]);
        assert(v@.take(i as int).push(v@[i as int]) == v@.take(i + 1));
        i += 1;
    }
    assert(v@.take(v.len() as int) == v@);
    s
}


/// Number of bytes of the UTF-8 encoding of `c`.
pub open spec fn char_width(c: char) -> nat {
    let u = c as u32;
    if u < 0x80 {
        1
    } else if u < 0x800 {
        2
    } else if u < 0x10000 {
        3
    } else {
        4
    }
}

/// Number of bytes of the UTF-8 encoding of `s` (what `str::len` returns).
pub open spec fn byte_len(s: Seq<char>) -> nat
    decreases s.len(),
{
    if s.len() == 0 {
        0
    } else {
        char_width(s.last()) + byte_len(s.drop_last())
    }
}

/// Whether the UTF-8 encoding of `v` is shorter than `bound` bytes.
pub fn byte_len_below(v: &[char], bound: usize) -> (res: bool)
    ensures
        res == (byte_len(v@) < bound),
{
    if bound == 0 {
        return false;
    }
    let mut total: usize = 0;
    let mut i: usize = 0;
    while i < v.len()
        invariant
            i <= v.len(),
            total == byte_len(v@.take(i as int)),
            total < bound,
        decreases v.len() - i,
    {
        let u = v[i] as u32;
        let w: usize = if u < 0x80 {
            1
        } else if u < 0x800 {
            2
        } else if u < 0x10000 {
            3
        } else {
            4
        };
        assert(v@.take(i + 1).drop_last() == v@.take(i as int));
        if w >= bound - total {
            proof {
                lemma_byte_len_prefix_mono(v@, i + 1);
            }
            return false;
        }
        total = total + w;
        i += 1;
    }
    assert(v@.take(v.len() as int) == v@);
    true
}

/// The byte length of a prefix never exceeds that of the whole sequence.
pub proof fn lemma_byte_len_prefix_mono(s: Seq<char>, k: int)
    requires
        0 <= k <= s.len(),
    ensures
        byte_len(s.take(k)) <= byte_len(s),
    decreases s.len(),
{
    if k < s.len() {
        assert(s.drop_last().take(k) == s.take(k));
        lemma_byte_len_prefix_mono(s.drop_last(), k);
    } else {
        assert(s.take(k) == s);
    }
}

/// The byte length of the first `k + 1` characters exceeds that of the first
/// `k` by the width of character `k`.
pub proof fn lemma_byte_len_step(s: Seq<char>, k: int)
    requires
        0 <= k < s.len(),
    ensures
        byte_len(s.take(k + 1)) == byte_len(s.take(k)) + char_width(s[k]),
{
    assert(s.take(k + 1).drop_last() == s.take(k));
}

/// Byte offsets of distinct character positions differ: they grow strictly.
pub proof fn lemma_byte_len_strict(s: Seq<char>, i: int, j: int)
    requires
        0 <= i < j <= s.len(),
    ensures
        byte_len(s.take(i)) < byte_len(s.take(j)),
{
    lemma_byte_len_step(s, i);
    assert(s.take(j).take(i + 1) == s.take(i + 1));
    lemma_byte_len_prefix_mono(s.take(j), i + 1);
}

/// `byte_len` counts the first character, then the rest.
proof fn lemma_byte_len_first(s: Seq<char>)
    requires
        s.len() > 0,
    ensures
        byte_len(s) == char_width(s[0]) + byte_len(s.drop_first()),
    decreases s.len(),
{
    if s.len() > 1 {
        lemma_byte_len_first(s.drop_last());
        assert(s.drop_last().drop_first() == s.drop_first().drop_last());
        assert(s.drop_first().last() == s.last());
        assert(s.drop_last()[0] == s[0]);
        assert(byte_len(s.drop_first()) == char_width(s.last()) + byte_len(s.drop_first().drop_last()));
    } else {
        assert(s.drop_first().len() == 0);
        assert(s.drop_last().len() == 0);
        assert(s.last() == s[0]);
        assert(byte_len(s.drop_first()) == 0);
        assert(byte_len(s.drop_last()) == 0);
    }
}

/// `byte_len` is the length of the UTF-8 encoding, that is what `str::len`
/// returns.
pub proof fn lemma_byte_len_encoding(s: Seq<char>)
    ensures
        byte_len(s) == vstd::utf8::encode_utf8(s).len(),
    decreases s.len(),
{
    if s.len() > 0 {
        lemma_byte_len_first(s);
        lemma_byte_len_encoding(s.drop_first());
        let c = s[0];
        vstd::utf8::char_is_scalar(c);
        assert(vstd::utf8::encode_scalar(c as u32).len() == char_width(c));
    }
}

/// Whether byte offset `b` of the encoding of `s` starts a character (or is
/// its end).
pub open spec fn at_char_boundary(s: Seq<char>, b: int) -> bool {
    exists|k: int| 0 <= k <= s.len() && byte_len(s.take(k)) == b
}

/// The character position at byte offset `b`, where that is a boundary.
pub open spec fn char_index(s: Seq<char>, b: int) -> int {
    choose|k: int| 0 <= k <= s.len() && byte_len(s.take(k)) == b
}

/// The character position at byte offset `b` is the one chosen by
/// `char_index`.
pub proof fn lemma_char_index_unique(s: Seq<char>, b: int, k: int)
    requires
        0 <= k <= s.len(),
        byte_len(s.take(k)) == b,
    ensures
        char_index(s, b) == k,
{
    let c = char_index(s, b);
    if c < k {
        lemma_byte_len_strict(s, c, k);
    } else if c > k {
        lemma_byte_len_strict(s, k, c);
    }
}

/// The character position at byte offset `b` of `v`, or `None` when `b`
/// falls inside a character or beyond the end.
pub fn char_index_at_byte(v: &[char], b: usize) -> (res: Option<usize>)
    ensures
        res is Some <==> at_char_boundary(v@, b as int),
        res matches Some(k) ==> k <= v.len() && k == char_index(v@, b as int),
{
    let mut total: usize = 0;
    let mut i: usize = 0;
    while i < v.len() && total < b
        invariant
            i <= v.len(),
            total == byte_len(v@.take(i as int)),
            total <= b,
            forall|k: int| 0 <= k < i ==> byte_len(#[trigger] v@.take(k)) < b,
        decreases v.len() - i,
    {
        let u = v[i] as u32;
        let w: usize = if u < 0x80 {
            1
        } else if u < 0x800 {
            2
        } else if u < 0x10000 {
            3
        } else {
            4
        };
        proof {
            lemma_byte_len_step(v@, i as int);
        }
        if w > b - total {
            proof {
                assert forall|k: int| 0 <= k <= v.len() implies byte_len(#[trigger] v@.take(k)) != b by {
                    if k > i {
                        if k > i + 1 {
                            lemma_byte_len_strict(v@, i + 1, k);
                        }
                    }
                }
            }
            return None;
        }
        total = total + w;
        i += 1;
    }
    if total == b {
        proof {
            lemma_char_index_unique(v@, b as int, i as int);
        }
        Some(i)
    } else {
        proof {
            assert forall|k: int| 0 <= k <= v.len() implies byte_len(#[trigger] v@.take(k)) != b by {
                if k > i {
                    lemma_byte_len_strict(v@, i as int, k);
                }
            }
        }
        None
    }
}

/// `s` with leading whitespace removed (`str::trim_start`).
pub open spec fn trim_start(s: Seq<char>) -> Seq<char>
    decreases s.len(),
{
    if s.len() > 0 && is_ws(s[0]) {
        trim_start(s.drop_first())
    } else {
        s
    }
}

/// `s` with trailing whitespace removed (`str::trim_end`).
pub open spec fn trim_end(s: Seq<char>) -> Seq<char>
    decreases s.len(),
{
    if s.len() > 0 && is_ws(s.last()) {
        trim_end(s.drop_last())
    } else {
        s
    }
}

/// `s` with leading and trailing whitespace removed (`str::trim`).
pub open spec fn trim(s: Seq<char>) -> Seq<char> {
    trim_end(trim_start(s))
}

proof fn lemma_trim_start_skip(s: Seq<char>, i: int)
    requires
        0 <= i <= s.len(),
        forall|j: int| 0 <= j < i ==> is_ws(#[trigger] s[j]),
    ensures
        trim_start(s) == trim_start(s.skip(i)),
    decreases i,
{
    if i > 0 {
        assert(s.skip(1).skip(i - 1) == s.skip(i));
        lemma_trim_start_skip(s.drop_first(), i - 1);
    } else {
        assert(s.skip(0) == s);
    }
}

proof fn lemma_trim_end_take(s: Seq<char>, k: int)
    requires
        0 <= k <= s.len(),
        forall|j: int| k <= j < s.len() ==> is_ws(#[trigger] s[j]),
    ensures
        trim_end(s) == trim_end(s.take(k)),
    decreases s.len() - k,
{
    if k < s.len() {
        assert(s.drop_last().take(k) == s.take(k));
        lemma_trim_end_take(s.drop_last(), k);
    } else {
        assert(s.take(k) == s);
    }
}

/// The characters of `v` with surrounding whitespace removed.
pub fn trim_chars(v: &[char]) -> (res: Vec<char>)
    ensures
        res@ == trim(v@),
{
    let mut a: usize = 0;
    while a < v.len() && is_whitespace_char(v[a])
        invariant
            a <= v.len(),
            forall|j: int| 0 <= j < a ==> is_ws(#[trigger] v@[j]),
        decreases v.len() - a,
    {
        a += 1;
    }
    proof {
        lemma_trim_start_skip(v@, a as int);
    }
    let ghost t = v@.skip(a as int);
    assert(trim_start(t) == t);
    let mut b: usize = v.len();
    while b > a && is_whitespace_char(v[b - 1])
        invariant
            a <= b <= v.len(),
            forall|j: int| b <= j < v.len() ==> is_ws(#[trigger] v@[j]),
        decreases b,
    {
        b -= 1;
    }
    proof {
        assert forall|j: int| b - a <= j < t.len() implies is_ws(#[trigger] t[j]) by {
            assert(t[j] == v@[j + a]);
        }
        lemma_trim_end_take(t, b - a);
        assert(t.take(b - a) == v@.subrange(a as int, b as int));
    }
    let mut res: Vec<char> = Vec::new();
    let mut i = a;
    while i < b
        invariant
            a <= i <= b,
            b <= v.len(),
            res@ == v@.subrange(a as int, i as int),
        decreases b - i,
    {
        res.push(v[i]);
        assert(v@.subrange(a as int, i + 1) == v@.subrange(a as int, i as int).push(v@[i as int]));
        i += 1;
    }
    res
}

/// The characters of `v` with leading whitespace removed.
pub fn trim_start_chars(v: &[char]) -> (res: Vec<char>)
    ensures
        res@ == trim_start(v@),
{
    let mut a: usize = 0;
    while a < v.len() && is_whitespace_char(v[a])
        invariant
            a <= v.len(),
            forall|j: int| 0 <= j < a ==> is_ws(#[trigger] v@[j]),
        decreases v.len() - a,
    {
        a += 1;
    }
    proof {
        lemma_trim_start_skip(v@, a as int);
    }
    assert(trim_start(v@.skip(a as int)) == v@.skip(a as int));
    let mut res: Vec<char> = Vec::new();
    let mut i = a;
    while i < v.len()
        invariant
            a <= i <= v.len(),
            res@ == v@.subrange(a as int, i as int),
        decreases v.len() - i,
    {
        res.push(v[i]);
        assert(v@.subrange(a as int, i + 1) == v@.subrange(a as int, i as int).push(v@[i as int]));
        i += 1;
    }
    assert(v@.subrange(a as int, v.len() as int) == v@.skip(a as int));
    res
}

/// `s` with surrounding whitespace removed, as a `String`.
pub fn trim_str(s: &str) -> (res: String)
    ensures
        res@ == trim(s@),
{
    let v = chars_of(s);
    let t = trim_chars(&v);
    string_from_chars(&t)
}


/// Pieces of `s` between occurrences of `sep` (`str::split` with a `char`).
pub open spec fn split_char(s: Seq<char>, sep: char) -> Seq<Seq<char>>
    decreases s.len(),
{
    if s.len() == 0 {
        seq![Seq::<char>::empty()]
    } else {
        let p = split_char(s.drop_last(), sep);
        if s.last() == sep {
            p.push(Seq::<char>::empty())
        } else {
            p.update(p.len() - 1, p.last().push(s.last()))
        }
    }
}

/// `split_char` always yields at least one piece.
pub proof fn lemma_split_char_nonempty(s: Seq<char>, sep: char)
    ensures
        split_char(s, sep).len() >= 1,
    decreases s.len(),
{
    if s.len() > 0 {
        lemma_split_char_nonempty(s.drop_last(), sep);
    }
}

/// A line without its terminating carriage return.
pub open spec fn strip_cr(l: Seq<char>) -> Seq<char> {
    if l.len() > 0 && l.last() == '\r' {
        l.drop_last()
    } else {
        l
    }
}

/// The lines of `s` as `str::lines` yields them: split at `\n`, a `\r`
/// before the `\n` removed, and no final empty line.
pub open spec fn lines(s: Seq<char>) -> Seq<Seq<char>> {
    let p = split_char(s, '\n');
    let body = p.drop_last().map_values(|l: Seq<char>| strip_cr(l));
    if p.last().len() == 0 {
        body
    } else {
        body.push(p.last())
    }
}

/// The views of a vector of character vectors.
pub open spec fn views(v: Seq<Vec<char>>) -> Seq<Seq<char>> {
    v.map_values(|x: Vec<char>| x@)
}

/// The lines of `v`.
pub fn lines_of(v: &[char]) -> (res: Vec<Vec<char>>)
    ensures
        views(res@) == lines(v@),
{
    let mut done: Vec<Vec<char>> = Vec::new();
    let mut cur: Vec<char> = Vec::new();
    let ghost mut raw: Seq<Seq<char>> = Seq::empty();
    let mut i: usize = 0;
    while i < v.len()
        invariant
            i <= v.len(),
            split_char(v@.take(i as int), '\n') == raw.push(cur@),
            views(done@) == raw.map_values(|l: Seq<char>| strip_cr(l)),
        decreases v.len() - i,
    {
        let c = v[i];
        assert(v@.take(i + 1).drop_last() == v@.take(i as int));
        assert(v@.take(i + 1).last() == c);
        if c == '\n' {
            let mut line = cur.clone();
            if line.len() > 0 && line[line.len() - 1] == '\r' {
                line.pop();
            }
            assert(line@ == strip_cr(cur@));
            proof {
                assert(raw.push(cur@).map_values(|l: Seq<char>| strip_cr(l)) == raw.map_values(
                    |l: Seq<char>| strip_cr(l),
                ).push(strip_cr(cur@)));
                raw = raw.push(cur@);
            }
            done.push(line);
            cur = Vec::new();
            assert(views(done@) == raw.map_values(|l: Seq<char>| strip_cr(l)));
        } else {
            cur.push(c);
        }
        i += 1;
    }
    assert(v@.take(v.len() as int) == v@);
    let ghost p = split_char(v@, '\n');
    assert(p.drop_last() == raw);
    assert(p.last() == cur@);
    if cur.len() > 0 {
        done.push(cur);
    }
    done
}

/// Number of whitespace-separated words in `s` (`str::split_whitespace().count()`).
pub open spec fn word_count(s: Seq<char>) -> nat
    decreases s.len(),
{
    if s.len() == 0 {
        0
    } else {
        word_count(s.drop_last()) + if !is_ws(s.last()) && (s.len() == 1 || is_ws(
            s[s.len() - 2],
        )) {
            1nat
        } else {
            0nat
        }
    }
}

/// Total UTF-8 byte length of the non-whitespace characters of `s`,
/// that is, of all its words together.
pub open spec fn word_bytes(s: Seq<char>) -> nat
    decreases s.len(),
{
    if s.len() == 0 {
        0
    } else {
        word_bytes(s.drop_last()) + if is_ws(s.last()) {
            0nat
        } else {
            char_width(s.last())
        }
    }
}

/// The words finished so far and the word in progress while scanning `s`
/// left to right.
pub open spec fn words_acc(s: Seq<char>) -> (Seq<Seq<char>>, Seq<char>)
    decreases s.len(),
{
    if s.len() == 0 {
        (Seq::empty(), Seq::empty())
    } else {
        let (d, c) = words_acc(s.drop_last());
        if is_ws(s.last()) {
            if c.len() > 0 {
                (d.push(c), Seq::empty())
            } else {
                (d, Seq::empty())
            }
        } else {
            (d, c.push(s.last()))
        }
    }
}

/// The whitespace-separated words of `s` (`str::split_whitespace`).
pub open spec fn words(s: Seq<char>) -> Seq<Seq<char>> {
    let (d, c) = words_acc(s);
    if c.len() > 0 {
        d.push(c)
    } else {
        d
    }
}

/// The whitespace-separated words of `v`.
pub fn words_of(v: &[char]) -> (res: Vec<Vec<char>>)
    ensures
        views(res@) == words(v@),
{
    let mut done: Vec<Vec<char>> = Vec::new();
    let mut cur: Vec<char> = Vec::new();
    let mut i: usize = 0;
    while i < v.len()
        invariant
            i <= v.len(),
            words_acc(v@.take(i as int)) == (views(done@), cur@),
        decreases v.len() - i,
    {
        assert(v@.take(i + 1).drop_last() == v@.take(i as int));
        if is_whitespace_char(v[i]) {
            if cur.len() > 0 {
                assert(views(done@.push(cur)) == views(done@).push(cur@));
                done.push(cur);
                cur = Vec::new();
            }
        } else {
            cur.push(v[i]);
        }
        i += 1;
    }
    assert(v@.take(v.len() as int) == v@);
    if cur.len() > 0 {
        assert(views(done@.push(cur)) == views(done@).push(cur@));
        done.push(cur);
    }
    done
}

/// The number of words of `v`.
pub fn count_words_chars(v: &[char]) -> (res: usize)
    ensures
        res == word_count(v@),
{
    let mut count: usize = 0;
    let mut i: usize = 0;
    while i < v.len()
        invariant
            i <= v.len(),
            count == word_count(v@.take(i as int)),
            count <= i,
        decreases v.len() - i,
    {
        assert(v@.take(i + 1).drop_last() == v@.take(i as int));
        if !is_whitespace_char(v[i]) && (i == 0 || is_whitespace_char(v[i - 1])) {
            count += 1;
        }
        i += 1;
    }
    assert(v@.take(v.len() as int) == v@);
    count
}

/// Whether `n` occurs in `h` starting at index `i`.
pub open spec fn occurs_at(h: Seq<char>, n: Seq<char>, i: int) -> bool {
    0 <= i && i + n.len() <= h.len() && h.subrange(i, i + n.len()) == n
}

/// Whether `n` occurs in `h` (`str::contains` with a string pattern).
pub open spec fn contains(h: Seq<char>, n: Seq<char>) -> bool {
    exists|i: int| occurs_at(h, n, i)
}

/// Whether `n` occurs in `h` at index `i`.
pub fn matches_at(h: &[char], n: &[char], i: usize) -> (res: bool)
    requires
        i <= h.len(),
    ensures
        res == occurs_at(h@, n@, i as int),
{
    if n.len() > h.len() - i {
        return false;
    }
    let mut k: usize = 0;
    while k < n.len()
        invariant
            k <= n.len(),
            i + n.len() <= h.len(),
            forall|j: int| 0 <= j < k ==> h@[i + j] == n@[j],
        decreases n.len() - k,
    {
        if h[i + k] != n[k] {
            assert(h@.subrange(i as int, i + n.len())[k as int] != n@[k as int]);
            return false;
        }
        k += 1;
    }
    assert(h@.subrange(i as int, i + n.len()) == n@);
    true
}

/// First index at or after `from` where `n` occurs in `h`.
pub fn find_from(h: &[char], n: &[char], from: usize) -> (res: Option<usize>)
    requires
        from <= h.len(),
    ensures
        match res {
            Some(i) => from <= i && occurs_at(h@, n@, i as int) && forall|j: int|
                from <= j < i ==> !occurs_at(h@, n@, j),
            None => forall|j: int| from <= j ==> !occurs_at(h@, n@, j),
        },
{
    let mut i = from;
    while i < h.len()
        invariant
            from <= i <= h.len(),
            forall|j: int| from <= j < i ==> !occurs_at(h@, n@, j),
        decreases h.len() - i,
    {
        if matches_at(h, n, i) {
            return Some(i);
        }
        i += 1;
    }
    if matches_at(h, n, i) {
        return Some(i);
    }
    None
}

/// Whether `n` occurs in `h`.
pub fn contains_chars(h: &[char], n: &[char]) -> (res: bool)
    ensures
        res == contains(h@, n@),
{
    match find_from(h, n, 0) {
        Some(i) => true,
        None => {
            assert forall|j: int| !occurs_at(h@, n@, j) by {
                if j < 0 {
                }
            }
            false
        },
    }
}

/// The number of non-overlapping occurrences of a non-empty `n` in `h` at
/// or after index `i`, taken from the left.
pub open spec fn occurrences_from(h: Seq<char>, n: Seq<char>, i: int) -> nat
    decreases h.len() - i,
{
    if n.len() == 0 || i < 0 || i + n.len() > h.len() {
        0
    } else if occurs_at(h, n, i) {
        1 + occurrences_from(h, n, i + n.len())
    } else {
        occurrences_from(h, n, i + 1)
    }
}

/// How many items `str::matches` yields for the pattern `n` on `h`: the
/// non-overlapping occurrences from the left, or one empty match at each
/// of the `h.len() + 1` boundaries where `n` is empty.
pub open spec fn occurrence_count(h: Seq<char>, n: Seq<char>) -> nat {
    if n.len() == 0 {
        h.len() + 1
    } else {
        occurrences_from(h, n, 0)
    }
}

/// Some occurrence starts at or after `i` exactly when the count from `i`
/// is positive.
pub proof fn lemma_occurrences_positive(h: Seq<char>, n: Seq<char>, i: int)
    requires
        n.len() > 0,
        0 <= i,
    ensures
        occurrences_from(h, n, i) > 0 <==> exists|j: int| i <= j && occurs_at(h, n, j),
    decreases h.len() - i,
{
    if i + n.len() > h.len() {
        assert forall|j: int| i <= j implies !occurs_at(h, n, j) by {}
    } else if occurs_at(h, n, i) {
    } else {
        lemma_occurrences_positive(h, n, i + 1);
        assert((exists|j: int| i <= j && occurs_at(h, n, j)) ==> exists|j: int| i + 1 <= j && occurs_at(h, n, j));
    }
}

/// The number of non-overlapping occurrences of `n` in `h`, as
/// `str::matches` counts them.
pub fn count_occurrences(h: &[char], n: &[char]) -> (res: u128)
    ensures
        res == occurrence_count(h@, n@),
{
    if n.len() == 0 {
        return (h.len() as u128) + 1;
    }
    let mut count: u128 = 0;
    let mut i: usize = 0;
    while i < h.len() && n.len() <= h.len() - i
        invariant
            i <= h.len(),
            n@.len() > 0,
            count <= i,
            count + occurrences_from(h@, n@, i as int) == occurrences_from(h@, n@, 0),
        decreases h.len() - i,
    {
        if matches_at(h, n, i) {
            count = count + 1;
            i = i + n.len();
        } else {
            i = i + 1;
        }
    }
    count
}

/// Whether `h` starts with `n`.
pub open spec fn starts_with(h: Seq<char>, n: Seq<char>) -> bool {
    occurs_at(h, n, 0)
}

/// `s` with every non-overlapping occurrence of `p`, scanned from the left,
/// replaced by `r` (`str::replace` with a non-empty pattern).
pub open spec fn replace(s: Seq<char>, p: Seq<char>, r: Seq<char>) -> Seq<char>
    decreases s.len(),
{
    if p.len() == 0 || s.len() == 0 {
        s
    } else if occurs_at(s, p, 0) {
        r + replace(s.skip(p.len() as int), p, r)
    } else {
        seq![s[0]] + replace(s.skip(1), p, r)
    }
}

/// `v` with every occurrence of `p` replaced by `r`.
pub fn replace_chars(v: &[char], p: &[char], r: &[char]) -> (res: Vec<char>)
    requires
        p.len() > 0,
    ensures
        res@ == replace(v@, p@, r@),
{
    let mut out: Vec<char> = Vec::new();
    let mut i: usize = 0;
    assert(v@.skip(0) == v@);
    while i < v.len()
        invariant
            i <= v.len(),
            p.len() > 0,
            out@ + replace(v@.skip(i as int), p@, r@) == replace(v@, p@, r@),
        decreases v.len() - i,
    {
        let ghost rest = v@.skip(i as int);
        if matches_at(v, p, i) {
            assert(occurs_at(rest, p@, 0)) by {
                assert(rest.subrange(0, p@.len() as int) == v@.subrange(i as int, i + p@.len()));
            }
            assert(rest.skip(p@.len() as int) == v@.skip(i + p.len()));
            let mut k: usize = 0;
            let ghost out0 = out@;
            while k < r.len()
                invariant
                    k <= r.len(),
                    out@ == out0 + r@.take(k as int),
                decreases r.len() - k,
            {
                out.push(r[k]);
                assert(r@.take(k + 1) == r@.take(k as int).push(r@[k as int]));
                k += 1;
            }
            assert(r@.take(r.len() as int) == r@);
            i += p.len();
        } else {
            assert(!occurs_at(rest, p@, 0)) by {
                if occurs_at(rest, p@, 0) {
                    assert(rest.subrange(0, p@.len() as int) == v@.subrange(
                        i as int,
                        i + p@.len(),
                    ));
                }
            }
            assert(rest.skip(1) == v@.skip(i + 1));
            assert(rest[0] == v@[i as int]);
            out.push(v[i]);
            i += 1;
        }
    }
    assert(v@.skip(i as int).len() == 0);
    out
}

/// The pieces of `ps` joined with `sep` between them (`[T]::join`).
pub open spec fn join(ps: Seq<Seq<char>>, sep: Seq<char>) -> Seq<char>
    decreases ps.len(),
{
    if ps.len() == 0 {
        Seq::empty()
    } else if ps.len() == 1 {
        ps[0]
    } else {
        join(ps.drop_last(), sep) + sep + ps.last()
    }
}

/// The pieces of `ps` joined with `sep`.
pub fn join_chars(ps: &Vec<Vec<char>>, sep: &[char]) -> (res: Vec<char>)
    ensures
        res@ == join(views(ps@), sep@),
{
    let mut out: Vec<char> = Vec::new();
    let mut i: usize = 0;
    while i < ps.len()
        invariant
            i <= ps.len(),
            out@ == join(views(ps@).take(i as int), sep@),
        decreases ps.len() - i,
    {
        let ghost before = out@;
        if i > 0 {
            append_chars(&mut out, sep);
        }
        append_chars(&mut out, &ps[i]);
        assert(views(ps@).take(i + 1).drop_last() == views(ps@).take(i as int));
        i += 1;
    }
    assert(views(ps@).take(ps.len() as int) == views(ps@));
    out
}

/// Appends the characters of `w` to `v`.
pub fn append_chars(v: &mut Vec<char>, w: &[char])
    ensures
        final(v)@ == old(v)@ + w@,
{
    let mut k: usize = 0;
    while k < w.len()
        invariant
            k <= w.len(),
            v@ == old(v)@ + w@.take(k as int),
        decreases w.len() - k,
    {
        v.push(w[k]);
        assert(w@.take(k + 1) == w@.take(k as int).push(w@[k as int]));
        k += 1;
    }
    assert(w@.take(w.len() as int) == w@);
}


/// The text of an optional string.
pub open spec fn opt_view(o: Option<String>) -> Option<Seq<char>> {
    match o {
        Some(s) => Some(s@),
        None => None,
    }
}

/// Whether two strings are equal.
pub fn str_eq(a: &str, b: &str) -> (res: bool)
    ensures
        res == (a@ == b@),
{
    let x = chars_of(a);
    let y = chars_of(b);
    chars_eq(&x, &y)
}

/// Whether two character sequences are equal.
pub fn chars_eq(x: &[char], y: &[char]) -> (res: bool)
    ensures
        res == (x@ == y@),
{
    if x.len() != y.len() {
        return false;
    }
    let mut i: usize = 0;
    while i < x.len()
        invariant
            i <= x.len(),
            x.len() == y.len(),
            forall|j: int| 0 <= j < i ==> x@[j] == y@[j],
        decreases x.len() - i,
    {
        if x[i] != y[i] {
            return false;
        }
        i += 1;
    }
    assert(x@ == y@);
    true
}


/// The decimal digit character of `d` (0 to 9).
pub open spec fn digit_char(d: int) -> char {
    if d == 0 {
        '0'
    } else if d == 1 {
        '1'
    } else if d == 2 {
        '2'
    } else if d == 3 {
        '3'
    } else if d == 4 {
        '4'
    } else if d == 5 {
        '5'
    } else if d == 6 {
        '6'
    } else if d == 7 {
        '7'
    } else if d == 8 {
        '8'
    } else {
        '9'
    }
}

/// The decimal digits of the natural number `n`, without leading zeros.
pub open spec fn digits(n: nat) -> Seq<char>
    decreases n,
{
    if n < 10 {
        seq![digit_char(n as int)]
    } else {
        digits(n / 10) + seq![digit_char((n % 10) as int)]
    }
}

/// The decimal text of `n`, as `format!("{}", n)` writes it.
pub open spec fn decimal(n: int) -> Seq<char> {
    if n < 0 {
        seq!['-'] + digits((-n) as nat)
    } else {
        digits(n as nat)
    }
}

fn digits_of(n: u64) -> (res: Vec<char>)
    ensures
        res@ == digits(n as nat),
    decreases n,
{
    let d = n % 10;
    let c = if d == 0 {
        '0'
    } else if d == 1 {
        '1'
    } else if d == 2 {
        '2'
    } else if d == 3 {
        '3'
    } else if d == 4 {
        '4'
    } else if d == 5 {
        '5'
    } else if d == 6 {
        '6'
    } else if d == 7 {
        '7'
    } else if d == 8 {
        '8'
    } else {
        '9'
    };
    if n < 10 {
        let mut v: Vec<char> = Vec::new();
        v.push(c);
        v
    } else {
        let mut v = digits_of(n / 10);
        v.push(c);
        v
    }
}

/// The decimal text of `n`.
pub fn decimal_text(n: i64) -> (res: String)
    ensures
        res@ == decimal(n as int),
{
    if n < 0 {
        let m: u64 = if n == i64::MIN { 9223372036854775808u64 } else { (-n) as u64 };
        let mut v: Vec<char> = Vec::new();
        v.push('-');
        let ds = digits_of(m);
        append_chars(&mut v, &ds);
        string_from_chars(&v)
    } else {
        let ds = digits_of(n as u64);
        string_from_chars(&ds)
    }
}


/// Whether `c` is an ASCII digit.
pub open spec fn is_ascii_digit(c: char) -> bool {
    '0' <= c && c <= '9'
}

/// The value of a string of ASCII digits.
pub open spec fn digits_value(s: Seq<char>) -> nat
    decreases s.len(),
{
    if s.len() == 0 {
        0
    } else {
        10 * digits_value(s.drop_last()) + ((s.last() as u32) - ('0' as u32)) as nat
    }
}

/// Whether `s` consists of ASCII digits only.
pub open spec fn all_digits(s: Seq<char>) -> bool {
    forall|i: int| 0 <= i < s.len() ==> is_ascii_digit(#[trigger] s[i])
}

/// `s` without a leading sign.
pub open spec fn unsigned_part(s: Seq<char>) -> Seq<char> {
    if s.len() > 0 && (s[0] == '+' || s[0] == '-') {
        s.drop_first()
    } else {
        s
    }
}

/// The integer that `s` spells: an optional `+` or `-`, then one or more
/// ASCII digits.
pub open spec fn spelled_int(s: Seq<char>) -> Option<int> {
    let signed = s.len() > 0 && (s[0] == '+' || s[0] == '-');
    let ds = unsigned_part(s);
    if ds.len() > 0 && all_digits(ds) {
        if signed && s[0] == '-' {
            Some(-(digits_value(ds) as int))
        } else {
            Some(digits_value(ds) as int)
        }
    } else {
        None
    }
}

/// What `str::parse::<i32>` gives for `s`: the spelled integer if it fits.
pub open spec fn parsed_i32(s: Seq<char>) -> Option<i32> {
    match spelled_int(s) {
        Some(v) => if i32::MIN <= v <= i32::MAX {
            Some(v as i32)
        } else {
            None
        },
        None => None,
    }
}

/// A longer digit string is worth at least as much as its prefix.
proof fn lemma_digits_value_prefix(s: Seq<char>, k: int)
    requires
        0 <= k <= s.len(),
        forall|i: int| 0 <= i < s.len() ==> is_ascii_digit(#[trigger] s[i]),
    ensures
        digits_value(s.take(k)) <= digits_value(s),
    decreases s.len() - k,
{
    if k < s.len() {
        assert(s.take(k + 1).drop_last() == s.take(k));
        lemma_digits_value_prefix(s, k + 1);
    } else {
        assert(s.take(k) == s);
    }
}

/// Parses `s` as `str::parse::<i32>` does.
pub fn parse_i32(s: &str) -> (res: Option<i32>)
    ensures
        res == parsed_i32(s@),
{
    let v = chars_of(s);
    let n = v.len();
    if n == 0 {
        return None;
    }
    let signed = v[0] == '+' || v[0] == '-';
    let negative = v[0] == '-';
    let start: usize = if signed { 1 } else { 0 };
    let ghost ds = if signed { v@.drop_first() } else { v@ };
    if start == n {
        return None;
    }
    let mut acc: u64 = 0;
    let mut i: usize = start;
    while i < n
        invariant
            start <= i <= n,
            n == v.len(),
            v@ == s@,
            start == (if signed { 1usize } else { 0usize }),
            n > 0,
            signed == (v@[0] == '+' || v@[0] == '-'),
            negative == (v@[0] == '-'),
            ds == (if signed { v@.drop_first() } else { v@ }),
            forall|k: int| 0 <= k < i - start ==> is_ascii_digit(#[trigger] ds[k]),
            acc == digits_value(ds.take(i - start)),
            acc <= 2147483648,
        decreases n - i,
    {
        let c = v[i];
        assert(ds[i - start] == c);
        if !('0' <= c && c <= '9') {
            proof {
                assert(ds == (if s@.len() > 0 && (s@[0] == '+' || s@[0] == '-') { s@.drop_first() } else { s@ }));
                assert(!is_ascii_digit(ds[i - start]));
                assert(unsigned_part(s@) == ds);
                assert(!all_digits(ds));
                assert(spelled_int(s@) is None);
            }
            return None;
        }
        let d = (c as u32 - '0' as u32) as u64;
        assert(ds.take(i - start + 1).drop_last() == ds.take(i - start));
        assert(ds.take(i - start + 1).last() == c);
        let next = 10 * acc + d;
        if next > 2147483648 {
            proof {
                assert(ds == (if s@.len() > 0 && (s@[0] == '+' || s@[0] == '-') { s@.drop_first() } else { s@ }));
                assert(unsigned_part(s@) == ds);
                if spelled_int(s@) is Some {
                    assert(all_digits(ds));
                    lemma_digits_value_prefix(ds, i - start + 1);
                }
            }
            return None;
        }
        acc = next;
        i += 1;
    }
    assert(ds.take(n - start) == ds);
    assert(ds == (if s@.len() > 0 && (s@[0] == '+' || s@[0] == '-') { s@.drop_first() } else { s@ }));
    assert(unsigned_part(s@) == ds);
    assert(all_digits(ds));
    if negative {
        Some((0 - (acc as i64)) as i32)
    } else if acc > 2147483647 {
        None
    } else {
        Some(acc as i32)
    }
}


/// What `str::parse::<u32>` gives for `s`: an optional `+`, then one or
/// more ASCII digits, if their value fits.
pub open spec fn parsed_u32(s: Seq<char>) -> Option<u32> {
    let ds = if s.len() > 0 && s[0] == '+' { s.drop_first() } else { s };
    if ds.len() > 0 && all_digits(ds) && digits_value(ds) <= u32::MAX {
        Some(digits_value(ds) as u32)
    } else {
        None
    }
}

/// Parses `s` as `str::parse::<u32>` does.
pub fn parse_u32(s: &str) -> (res: Option<u32>)
    ensures
        res == parsed_u32(s@),
{
    let v = chars_of(s);
    let n = v.len();
    if n == 0 {
        return None;
    }
    let plus = v[0] == '+';
    let start: usize = if plus { 1 } else { 0 };
    let ghost ds = if plus { v@.drop_first() } else { v@ };
    if start == n {
        return None;
    }
    let mut acc: u64 = 0;
    let mut i: usize = start;
    while i < n
        invariant
            start <= i <= n,
            n == v.len(),
            v@ == s@,
            n > 0,
            plus == (v@[0] == '+'),
            start == (if plus { 1usize } else { 0usize }),
            ds == (if plus { v@.drop_first() } else { v@ }),
            forall|k: int| 0 <= k < i - start ==> is_ascii_digit(#[trigger] ds[k]),
            acc == digits_value(ds.take(i - start)),
            acc <= 4294967295,
        decreases n - i,
    {
        let c = v[i];
        assert(ds[i - start] == c);
        if !('0' <= c && c <= '9') {
            proof {
                assert(!is_ascii_digit(ds[i - start]));
                assert(!all_digits(ds));
            }
            return None;
        }
        let d = (c as u32 - '0' as u32) as u64;
        assert(ds.take(i - start + 1).drop_last() == ds.take(i - start));
        assert(ds.take(i - start + 1).last() == c);
        let next = 10 * acc + d;
        if next > 4294967295 {
            proof {
                if all_digits(ds) {
                    lemma_digits_value_prefix(ds, i - start + 1);
                }
            }
            return None;
        }
        acc = next;
        i += 1;
    }
    assert(ds.take(n - start) == ds);
    assert(all_digits(ds));
    Some(acc as u32)
}


/// The byte length of a concatenation is the sum of the byte lengths.
pub proof fn lemma_byte_len_concat(a: Seq<char>, b: Seq<char>)
    ensures
        byte_len(a + b) == byte_len(a) + byte_len(b),
    decreases b.len(),
{
    if b.len() > 0 {
        lemma_byte_len_concat(a, b.drop_last());
        assert((a + b).drop_last() == a + b.drop_last());
        assert((a + b).last() == b.last());
    } else {
        assert(a + b == a);
    }
}

} // verus!
