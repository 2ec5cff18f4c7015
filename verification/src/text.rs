//! Verified text utilities: character-exact string comparison, substring
//! search (used to recognize known remote error conditions), and splitting an
//! oversized reply into ordered chunks at a fixed character boundary, so that
//! no chunk ever splits a character.

use vstd::prelude::*;

verus! {

/// Relies on `String::push` from std: appends exactly the one character at
/// the end of the string.
#[verifier::external_body]
pub(crate) fn push_char(s: &mut String, c: char)
    ensures
        final(s)@ == old(s)@ + seq![c],
{
    s.push(c);
}

/// Character-exact equality of two string slices.
pub fn str_eq(a: &str, b: &str) -> (r: bool)
    ensures
        r == (a@ == b@),
{
    let na = a.unicode_len();
    let nb = b.unicode_len();
    if na != nb {
        return false;
    }
    let mut i: usize = 0;
    while i < na
        invariant
            na == a@.len(),
            nb == b@.len(),
            na == nb,
            i <= na,
            forall|j: int| 0 <= j < i ==> a@[j] == b@[j],
        decreases na - i,
    {
        if a.get_char(i) != b.get_char(i) {
            return false;
        }
        i += 1;
    }
    proof {
        assert(a@ =~= b@);
    }
    true
}

/// `needle` occurs in `haystack` as a contiguous run of characters.
pub open spec fn spec_contains(haystack: Seq<char>, needle: Seq<char>) -> bool {
    exists|i: int|
        0 <= i && i + needle.len() <= haystack.len() && #[trigger] haystack.subrange(
            i,
            i + needle.len() as int,
        ) == needle
}

/// The characters of `needle` all match `haystack` starting at position `i`.
fn matches_at(haystack: &str, needle: &str, i: usize) -> (r: bool)
    requires
        i + needle@.len() <= haystack@.len(),
        haystack@.len() <= usize::MAX,
    ensures
        r == (haystack@.subrange(i as int, i as int + needle@.len() as int) == needle@),
{
    let nn = needle.unicode_len();
    let ghost sub = haystack@.subrange(i as int, i as int + needle@.len() as int);
    let mut j: usize = 0;
    while j < nn
        invariant
            nn == needle@.len(),
            i + nn <= haystack@.len(),
            haystack@.len() <= usize::MAX,
            j <= nn,
            sub == haystack@.subrange(i as int, i as int + needle@.len() as int),
            forall|l: int| 0 <= l < j ==> haystack@[i + l] == needle@[l],
        decreases nn - j,
    {
        if haystack.get_char(i + j) != needle.get_char(j) {
            proof {
                assert(sub[j as int] == haystack@[i + j]);
            }
            return false;
        }
        j += 1;
    }
    proof {
        assert(sub =~= needle@);
    }
    true
}

/// Substring search: true exactly when `needle` occurs in `haystack`.
pub fn contains_substring(haystack: &str, needle: &str) -> (r: bool)
    ensures
        r == spec_contains(haystack@, needle@),
{
    let hn = haystack.unicode_len();
    let nn = needle.unicode_len();
    if nn > hn {
        return false;
    }
    if nn == 0 {
        proof {
            assert(haystack@.subrange(0, 0 + needle@.len() as int) =~= needle@);
        }
        return true;
    }
    let mut i: usize = 0;
    while i <= hn - nn
        invariant
            hn == haystack@.len(),
            nn == needle@.len(),
            1 <= nn <= hn,
            i <= hn - nn + 1,
            forall|k: int|
                0 <= k < i ==> #[trigger] haystack@.subrange(k, k + needle@.len() as int)
                    != needle@,
        decreases hn - nn + 1 - i,
    {
        if matches_at(haystack, needle, i) {
            return true;
        }
        i += 1;
    }
    false
}

/// The concatenation of a sequence of parts, in order.
pub open spec fn spec_concat(parts: Seq<Seq<char>>) -> Seq<char>
    decreases parts.len(),
{
    if parts.len() == 0 {
        Seq::empty()
    } else {
        spec_concat(parts.drop_last()) + parts.last()
    }
}

/// Model of a vector of owned chunks.
pub open spec fn chunk_views(chunks: Seq<String>) -> Seq<Seq<char>> {
    chunks.map(|i: int, s: String| s@)
}

/// Number of chunks a text of `len` characters splits into at boundary
/// `size`: the rounded-up quotient.
pub open spec fn spec_chunk_count(len: int, size: int) -> int {
    (len + size - 1) / size
}

/// Splits `text` into ordered chunks of at most `chunk_size` characters:
/// every chunk but the last is exactly full, every chunk is non-empty, the
/// i-th chunk is exactly the i-th window of the text, and the concatenation
/// of all chunks is the original text. Splitting at character granularity
/// never cuts a multi-byte encoding apart.
pub fn chunk_reply(text: &str, chunk_size: usize) -> (chunks: Vec<String>)
    requires
        chunk_size >= 1,
    ensures
        chunks@.len() == spec_chunk_count(text@.len() as int, chunk_size as int),
        forall|i: int|
            0 <= i < chunks@.len() ==> chunks@[i]@ == text@.subrange(
                i * chunk_size,
                if (i + 1) * chunk_size <= text@.len() {
                    (i + 1) * chunk_size as int
                } else {
                    text@.len() as int
                },
            ),
        spec_concat(chunk_views(chunks@)) == text@,
        forall|i: int| 0 <= i < chunks@.len() ==> 1 <= (#[trigger] chunks@[i])@.len() <= chunk_size,
{
    let n = text.unicode_len();
    let mut chunks: Vec<String> = Vec::new();
    proof {
        assert(chunks@.len() * chunk_size == 0);
        assert(spec_concat(chunk_views(chunks@)) =~= text@.subrange(0, 0));
    }
    let mut start: usize = 0;
    while start < n
        invariant
            n == text@.len(),
            chunk_size >= 1,
            start <= n,
            start == if chunks@.len() * chunk_size <= n {
                (chunks@.len() * chunk_size) as int
            } else {
                n as int
            },
            chunks@.len() == 0 || (chunks@.len() - 1) * chunk_size < n,
            forall|i: int|
                0 <= i < chunks@.len() ==> chunks@[i]@ == text@.subrange(
                    i * chunk_size,
                    if (i + 1) * chunk_size <= n {
                        (i + 1) * chunk_size as int
                    } else {
                        n as int
                    },
                ),
            spec_concat(chunk_views(chunks@)) == text@.subrange(0, start as int),
            forall|i: int| 0 <= i < chunks@.len() ==> 1 <= (#[trigger] chunks@[i])@.len() <= chunk_size,
        decreases n - start,
    {
        let end: usize = if n - start < chunk_size {
            n
        } else {
            start + chunk_size
        };
        let part = text.substring_char(start, end);
        let ghost old_chunks = chunks@;
        chunks.push(String::from_str(part));
        proof {
            let k = chunks@.len() - 1;
            assert(chunk_views(chunks@).drop_last() =~= chunk_views(old_chunks));
            assert(chunk_views(chunks@).last() == part@);
            assert(k * chunk_size == (k as int) * (chunk_size as int)) by (nonlinear_arith);
            assert((k + 1) * chunk_size == k * chunk_size + chunk_size) by (nonlinear_arith);
            assert(text@.subrange(0, start as int) + text@.subrange(start as int, end as int)
                =~= text@.subrange(0, end as int));
            assert(forall|i: int|
                0 <= i < old_chunks.len() ==> chunks@[i] == old_chunks[i]);
        }
        start = end;
    }
    proof {
        assert(text@.subrange(0, n as int) =~= text@);
        let m = chunks@.len() as int;
        if m == 0 {
            assert(n == 0);
        } else {
            assert((m - 1) * chunk_size < n <= m * chunk_size);
        }
        lemma_ceil_count(n as int, chunk_size as int, m);
    }
    chunks
}

/// Characterizes the rounded-up quotient: if `n` lies in the `m`-th window,
/// `m` is the chunk count.
proof fn lemma_ceil_count(n: int, size: int, m: int)
    requires
        size >= 1,
        m >= 0,
        n >= 0,
        (m - 1) * size < n,
        n <= m * size,
    ensures
        spec_chunk_count(n, size) == m,
{
    assert((n + size - 1) / size == m) by (nonlinear_arith)
        requires
            size >= 1,
            m >= 0,
            n >= 0,
            (m - 1) * size < n,
            n <= m * size,
    ;
}

} // verus!
