//! The prompt formatter: augments a user turn with retrieval context under a
//! fixed, self-delimiting template, and inverts that template when a stored
//! transcript is replayed. The inverse keeps only the user's own text; the
//! injected retrieval context is deliberately discarded.

use vstd::prelude::*;

verus! {

/// Opens the retrieval-context section of the template.
pub open spec fn ctx_pre() -> Seq<char> {
    "<|context|> "@
}

/// Separates the retrieval context from the user's text.
pub open spec fn user_mark() -> Seq<char> {
    " <|user|> "@
}

/// Closes the template.
pub open spec fn tail_mark() -> Seq<char> {
    " <|end|><|assistant|>"@
}

/// A user prompt combined with retrieval context under the template.
pub open spec fn formatted(rag: Seq<char>, p: Seq<char>) -> Seq<char> {
    ctx_pre() + rag + user_mark() + p + tail_mark()
}

/// What the formatter produces: the prompt itself without augmentation, the
/// template otherwise.
pub open spec fn format_spec(p: Seq<char>, rag: Option<Seq<char>>) -> Seq<char> {
    match rag {
        None => p,
        Some(c) => formatted(c, p),
    }
}

/// Whether `s` begins with the context marker, the shape only formatted
/// prompts are meant to have.
pub open spec fn has_ctx_prefix(s: Seq<char>) -> bool {
    s.len() >= ctx_pre().len() && s.subrange(0, ctx_pre().len() as int) == ctx_pre()
}

/// The first position at or after `i` where `m` occurs in `s`, or -1.
pub open spec fn find_from(s: Seq<char>, m: Seq<char>, i: int) -> int
    recommends
        0 <= i,
    decreases s.len() - i,
{
    if i + m.len() > s.len() {
        -1
    } else if m.len() == 0 {
        i
    } else if s.subrange(i, i + m.len()) == m {
        i
    } else {
        find_from(s, m, i + 1)
    }
}

/// What the inverse transform returns: for a string of the template's shape,
/// the substring between the first user marker and the fixed tail; any other
/// string unchanged.
pub open spec fn unformat_spec(s: Seq<char>) -> Seq<char> {
    if !has_ctx_prefix(s) {
        s
    } else {
        let i = find_from(s, user_mark(), 0);
        if i < 0 {
            s
        } else {
            let start = i + user_mark().len();
            let end = s.len() - tail_mark().len();
            if start <= end && s.subrange(end, s.len() as int) == tail_mark() {
                s.subrange(start, end)
            } else {
                s
            }
        }
    }
}

/// Skipping positions where `m` does not occur leaves the search unchanged.
proof fn lemma_find_skip(s: Seq<char>, m: Seq<char>, a: int, b: int)
    requires
        m.len() > 0,
        0 <= a <= b,
        forall|j: int|
            a <= j < b && j + m.len() <= s.len() ==> #[trigger] s.subrange(j, j + m.len()) != m,
    ensures
        find_from(s, m, a) == find_from(s, m, b),
    decreases b - a,
{
    if a < b {
        if a + m.len() > s.len() {
            assert(b + m.len() > s.len());
        } else {
            lemma_find_skip(s, m, a + 1, b);
        }
    }
}

/// When `m` occurs first at `b`, the search from the start lands on `b`.
proof fn lemma_find_exact(s: Seq<char>, m: Seq<char>, b: int)
    requires
        m.len() > 0,
        0 <= b,
        b + m.len() <= s.len(),
        s.subrange(b, b + m.len()) == m,
        forall|j: int|
            0 <= j < b && j + m.len() <= s.len() ==> #[trigger] s.subrange(j, j + m.len()) != m,
    ensures
        find_from(s, m, 0) == b,
{
    lemma_find_skip(s, m, 0, b);
}

/// A search that fails really found nothing: wherever the pattern would fit,
/// it differs.
proof fn lemma_find_props(s: Seq<char>, m: Seq<char>, i: int)
    requires
        0 <= i,
    ensures
        ({
            let r = find_from(s, m, i);
            &&& r == -1 || (i <= r && r + m.len() <= s.len() && s.subrange(r, r + m.len()) == m)
            &&& r == -1 ==> forall|j: int|
                i <= j && j + m.len() <= s.len() ==> #[trigger] s.subrange(j, j + m.len()) != m
        }),
    decreases s.len() - i,
{
    if i + m.len() > s.len() {
    } else if m.len() == 0 {
        assert(s.subrange(i, i + m.len()) =~= m);
    } else if s.subrange(i, i + m.len()) == m {
    } else {
        lemma_find_props(s, m, i + 1);
    }
}

/// Whether `m` occurs in `s` starting exactly at `i`.
fn match_at(s: &str, m: &str, i: usize, n: usize, mlen: usize) -> (r: bool)
    requires
        n == s@.len(),
        mlen == m@.len(),
        i + mlen <= n,
    ensures
        r == (s@.subrange(i as int, i as int + m@.len()) == m@),
{
    let mut j: usize = 0;
    while j < mlen
        invariant
            0 <= j <= mlen,
            n == s@.len(),
            mlen == m@.len(),
            i + mlen <= n,
            forall|k: int| 0 <= k < j ==> s@[i + k] == m@[k],
        decreases mlen - j,
    {
        if s.get_char(i + j) != m.get_char(j) {
            assert(s@.subrange(i as int, i as int + m@.len())[j as int] == s@[i + j]);
            return false;
        }
        j = j + 1;
    }
    proof {
        assert(s@.subrange(i as int, i as int + m@.len()) =~= m@);
    }
    true
}

/// The first position where `m` occurs in `s`, if any.
fn find_first(s: &str, m: &str) -> (r: Option<usize>)
    ensures
        match r {
            Some(i) => find_from(s@, m@, 0) == i,
            None => find_from(s@, m@, 0) == -1,
        },
{
    let n = s.unicode_len();
    let mlen = m.unicode_len();
    if mlen > n {
        return None;
    }
    if mlen == 0 {
        proof {
            assert(s@.subrange(0, 0) =~= m@);
        }
        return Some(0);
    }
    let limit = n - mlen;
    let mut i: usize = 0;
    while i <= limit
        invariant
            0 <= i <= limit + 1,
            limit == n - mlen,
            mlen >= 1,
            mlen <= n,
            n == s@.len(),
            mlen == m@.len(),
            forall|j: int|
                0 <= j < i && j + m@.len() <= s@.len() ==> #[trigger] s@.subrange(j, j + m@.len())
                    != m@,
        decreases limit + 1 - i,
    {
        if match_at(s, m, i, n, mlen) {
            proof {
                lemma_find_exact(s@, m@, i as int);
            }
            return Some(i);
        }
        i = i + 1;
    }
    proof {
        lemma_find_skip(s@, m@, 0, i as int);
    }
    None
}

/// Applies the retrieval augmentation: without context the prompt passes
/// through unchanged; with context the template wraps both.
pub fn format_prompt(prompt: &str, rag_content: Option<&str>) -> (r: String)
    ensures
        r@ == format_spec(prompt@, match rag_content {
            Some(c) => Some(c@),
            None => None,
        }),
{
    match rag_content {
        None => String::from_str(prompt),
        Some(ctx) => {
            let mut out = String::from_str("<|context|> ");
            out.append(ctx);
            out.append(" <|user|> ");
            out.append(prompt);
            out.append(" <|end|><|assistant|>");
            proof {
                assert(out@ =~= formatted(ctx@, prompt@));
            }
            out
        },
    }
}

/// Inverts the template: recovers the user's own text from a formatted
/// prompt, and returns anything that is not of the template's shape
/// unchanged.
pub fn unformat_prompt(prompt: &str) -> (r: String)
    ensures
        r@ == unformat_spec(prompt@),
{
    let n = prompt.unicode_len();
    let pre = "<|context|> ";
    let pre_len = pre.unicode_len();
    if n < pre_len || !match_at(prompt, pre, 0, n, pre_len) {
        return String::from_str(prompt);
    }
    let mark = " <|user|> ";
    let mark_len = mark.unicode_len();
    match find_first(prompt, mark) {
        None => String::from_str(prompt),
        Some(i) => {
            let tail = " <|end|><|assistant|>";
            let tail_len = tail.unicode_len();
            proof {
                lemma_find_props(prompt@, mark@, 0);
            }
            let start = i + mark_len;
            if tail_len > n {
                return String::from_str(prompt);
            }
            let end = n - tail_len;
            if start <= end && match_at(prompt, tail, end, n, tail_len) {
                String::from_str(prompt.substring_char(start, end))
            } else {
                String::from_str(prompt)
            }
        },
    }
}

/// Round trip without augmentation: formatting with no retrieval source is
/// the identity, and the inverse gives the prompt back, for every prompt
/// that does not itself begin with the template's context marker.
pub proof fn lemma_unformat_format_no_rag(p: Seq<char>)
    requires
        !has_ctx_prefix(p),
    ensures
        unformat_spec(format_spec(p, None)) == p,
{
}

/// Whether the user marker occurs nowhere in the template before the place
/// the formatter puts it: true of every retrieval context that does not
/// contain or complete a user marker of its own.
pub open spec fn mark_free(rag: Seq<char>) -> bool {
    forall|j: int|
        0 <= j < ctx_pre().len() + rag.len() ==> #[trigger] (ctx_pre() + rag
            + user_mark()).subrange(j, j + user_mark().len()) != user_mark()
}

/// Round trip with augmentation: the inverse recovers exactly the user's
/// text from a formatted prompt, whatever the prompt, provided the retrieval
/// context does not itself produce an early user marker.
pub proof fn lemma_unformat_format_rag(rag: Seq<char>, p: Seq<char>)
    requires
        mark_free(rag),
    ensures
        unformat_spec(formatted(rag, p)) == p,
{
    reveal_strlit(" <|user|> ");
    let s = formatted(rag, p);
    let head = ctx_pre() + rag + user_mark();
    let b: int = ctx_pre().len() + rag.len() as int;
    assert(s.subrange(0, ctx_pre().len() as int) =~= ctx_pre());
    assert(has_ctx_prefix(s));
    assert(s.subrange(b, b + user_mark().len()) =~= user_mark());
    assert forall|j: int|
        0 <= j < b && j + user_mark().len() <= s.len() implies #[trigger] s.subrange(
        j,
        j + user_mark().len(),
    ) != user_mark() by {
        assert(s.subrange(j, j + user_mark().len()) =~= head.subrange(
            j,
            j + user_mark().len(),
        ));
    }
    lemma_find_exact(s, user_mark(), b);
    let start: int = b + user_mark().len();
    let end: int = s.len() - tail_mark().len();
    assert(end == start + p.len());
    assert(s.subrange(end, s.len() as int) =~= tail_mark());
    assert(s.subrange(start, end) =~= p);
}

} // verus!
