//! Locating a JSON array inside a free-form AI reply.
use vstd::prelude::*;
use crate::text::{
    find_from, is_white_space, matches_at, chars_of, find, find_chars, lemma_find_from_props, lemma_rfind_below_props, lemma_trim_idempotent,
    lemma_trim_of_clean, rfind, rfind_chars, slice_chars, starts_with_char, string_of, trim, trim_chars,
};

verus! {

pub open spec fn fence() -> Seq<char> {
    seq!['`', '`', '`']
}

pub open spec fn newline() -> Seq<char> {
    seq!['\n']
}

pub open spec fn open_bracket() -> Seq<char> {
    seq!['[']
}

pub open spec fn close_bracket() -> Seq<char> {
    seq![']']
}

pub open spec fn starts_with_bracket(s: Seq<char>) -> bool {
    s.len() > 0 && s[0] == '['
}

/// The text after the first code fence of the trimmed reply.
pub open spec fn after_fence(t: Seq<char>, start: int) -> Seq<char> {
    t.skip(start + 3)
}

/// Where the fenced content starts: after the first newline, or one character
/// in when there is none (the language tag is skipped up to the newline).
pub open spec fn content_start(after: Seq<char>) -> int {
    match find(after, newline()) {
        Some(p) => p + 1,
        None => 1,
    }
}

/// The array found between code fences, if any.
pub open spec fn fenced_array(t: Seq<char>) -> Option<Seq<char>> {
    match find(t, fence()) {
        Some(start) => {
            let after = after_fence(t, start);
            let content = after.skip(content_start(after));
            match find(content, fence()) {
                Some(end) => {
                    let inner = trim(content.take(end));
                    if starts_with_bracket(inner) {
                        Some(inner)
                    } else {
                        None
                    }
                },
                None => None,
            }
        },
        None => None,
    }
}

/// The span from the first `[` to the last `]`, if the last comes after the first.
pub open spec fn bracket_span(t: Seq<char>) -> Option<Seq<char>> {
    match find(t, open_bracket()) {
        Some(st) => match rfind(t, close_bracket()) {
            Some(en) => if en > st {
                Some(t.subrange(st, en + 1))
            } else {
                None
            },
            None => None,
        },
        None => None,
    }
}

/// The JSON array text extracted from a reply, or `None` when there is none.
pub open spec fn extracted_array(text: Seq<char>) -> Option<Seq<char>> {
    let t = trim(text);
    if starts_with_bracket(t) {
        Some(t)
    } else if fenced_array(t) is Some {
        fenced_array(t)
    } else {
        bracket_span(t)
    }
}

/// The inputs on which skipping the fence's language tag slices past the end
/// of the text or into the middle of a multi-byte character: the reply holds
/// a code fence with no newline after it, followed by nothing or by a
/// non-ASCII character.
pub open spec fn fence_slice_fails(text: Seq<char>) -> bool {
    let t = trim(text);
    &&& !starts_with_bracket(t)
    &&& find(t, fence()) matches Some(start) && {
        let after = after_fence(t, start);
        &&& find(after, newline()) is None
        &&& (after.len() == 0 || (after[0] as u32) >= 128)
    }
}

pub open spec fn not_found_message() -> Seq<char> {
    "Could not find JSON array in AI response"@
}

/// Whether `extract_json_array` would slice out of bounds on `text` (see `fence_slice_fails`).
pub fn json_fence_unsliceable(text: &str) -> (r: bool)
    ensures
        r == fence_slice_fails(text@),
{
    let all = chars_of(text);
    let t = trim_chars(&all);
    if starts_with_char(&t, '[') {
        return false;
    }
    let f = vec!['`', '`', '`'];
    assert(f@ =~= fence());
    match find_chars(&t, &f) {
        None => false,
        Some(start) => {
            proof {
                lemma_find_from_props(t@, fence(), 0);
            }
            assert(fence().len() == 3);
            assert(matches_at(t@, fence(), start as int));
            let tn = t.len();
            let after = slice_chars(&t, start + 3, tn);
            assert(after@ == after_fence(t@, start as int));
            let nl = vec!['\n'];
            assert(nl@ =~= newline());
            match find_chars(&after, &nl) {
                Some(_) => false,
                None => after.len() == 0 || (after[0] as u32) >= 128,
            }
        },
    }
}

/// Extracts a JSON array from text that may contain markdown code fences or
/// surrounding text: the trimmed text when it starts with `[`; else the
/// trimmed content of the first fenced block when that starts with `[`; else
/// the span from the first `[` to the last `]`.
pub fn extract_json_array(text: &str) -> (r: Result<String, String>)
    requires
        !fence_slice_fails(text@),
    ensures
        r matches Ok(s) ==> extracted_array(text@) == Some(s@),
        r matches Err(e) ==> extracted_array(text@) is None && e@ == not_found_message(),
        extracted_array(text@) is Some ==> r is Ok,
{
    let all = chars_of(text);
    let t = trim_chars(&all);
    if starts_with_char(&t, '[') {
        return Ok(string_of(t.as_slice()));
    }
    let f = vec!['`', '`', '`'];
    let nl = vec!['\n'];
    assert(f@ =~= fence());
    assert(nl@ =~= newline());
    if let Some(start) = find_chars(&t, &f) {
        proof {
            lemma_find_from_props(t@, fence(), 0);
        }
        assert(fence().len() == 3);
        assert(matches_at(t@, fence(), start as int));
        let tn = t.len();
        let after = slice_chars(&t, start + 3, tn);
        assert(after@ == after_fence(t@, start as int));
        let cs: usize = match find_chars(&after, &nl) {
            Some(p) => {
                proof {
                    lemma_find_from_props(after@, newline(), 0);
                }
                p + 1
            },
            None => 1,
        };
        assert(cs == content_start(after@));
        let content = slice_chars(&after, cs, after.len());
        assert(content@ == after@.skip(cs as int));
        if let Some(end) = find_chars(&content, &f) {
            proof {
                lemma_find_from_props(content@, fence(), 0);
            }
            let head = slice_chars(&content, 0, end);
            assert(head@ == content@.take(end as int));
            let inner = trim_chars(&head);
            if starts_with_char(&inner, '[') {
                return Ok(string_of(inner.as_slice()));
            }
        }
    }
    assert(fenced_array(t@) is None);
    let ob = vec!['['];
    let cb = vec![']'];
    assert(ob@ =~= open_bracket());
    assert(cb@ =~= close_bracket());
    if let Some(st) = find_chars(&t, &ob) {
        proof {
            lemma_find_from_props(t@, open_bracket(), 0);
        }
        if let Some(en) = rfind_chars(&t, &cb) {
            proof {
                lemma_rfind_below_props(t@, close_bracket(), t@.len() - 1);
            }
            assert(close_bracket().len() == 1);
            assert(matches_at(t@, close_bracket(), en as int));
            let tn = t.len();
            if en > st {
                let span = slice_chars(&t, st, en + 1);
                return Ok(string_of(span.as_slice()));
            }
        }
    }
    Err("Could not find JSON array in AI response".to_string())
}

/// Whatever `extract_json_array` returns starts with `[` and is already
/// trimmed, so extracting again from its result gives the same text.
pub proof fn lemma_extract_idempotent(text: Seq<char>)
    requires
        extracted_array(text) is Some,
    ensures
        !fence_slice_fails(extracted_array(text)->0),
        extracted_array(extracted_array(text)->0) == extracted_array(text),
        starts_with_bracket(extracted_array(text)->0),
{
    let t = trim(text);
    let s = extracted_array(text)->0;
    lemma_trim_idempotent(text);
    if starts_with_bracket(t) {
        assert(s == t);
    } else if fenced_array(t) is Some {
        let start = find(t, fence())->0;
        let after = after_fence(t, start);
        let content = after.skip(content_start(after));
        let end = find(content, fence())->0;
        lemma_trim_idempotent(content.take(end));
    } else {
        let st = find(t, open_bracket())->0;
        let en = rfind(t, close_bracket())->0;
        lemma_find_from_props(t, open_bracket(), 0);
        lemma_rfind_below_props(t, close_bracket(), t.len() - 1);
        assert(t.subrange(st, st + 1) =~= open_bracket());
        assert(t.subrange(en, en + 1) =~= close_bracket());
        assert(t[en] == t.subrange(en, en + 1)[0]);
        assert(t[st] == t.subrange(st, st + 1)[0]);
        assert(s.len() == en + 1 - st);
        assert(s[0] == t[st]);
        assert(s[s.len() - 1] == t[en]);
        assert(s[0] == '[');
        assert(s.last() == ']');
        lemma_trim_of_clean(s);
    }
}

/// `pat` first occurs in `s` at `k` when it occurs there and nowhere before.
proof fn lemma_find_first_at(s: Seq<char>, pat: Seq<char>, i: int, k: int)
    requires
        0 <= i <= k,
        matches_at(s, pat, k),
        forall|j: int| i <= j < k ==> !matches_at(s, pat, j),
    ensures
        find_from(s, pat, i) == Some(k),
    decreases k - i,
{
    if i < k {
        lemma_find_first_at(s, pat, i + 1, k);
    }
}

/// In `pre + rest`, where `pre` never holds the first character of `pat`
/// and `rest` starts with `pat`, `pat` is first found right after `pre`.
proof fn lemma_find_after_prefix(pre: Seq<char>, rest: Seq<char>, pat: Seq<char>)
    requires
        pat.len() > 0,
        forall|i: int| 0 <= i < pre.len() ==> pre[i] != pat[0],
        pat.len() <= rest.len(),
        rest.take(pat.len() as int) == pat,
    ensures
        find(pre + rest, pat) == Some(pre.len() as int),
{
    let s = pre + rest;
    let n = pre.len() as int;
    assert(s.subrange(n, n + pat.len()) =~= rest.take(pat.len() as int));
    assert forall|j: int| 0 <= j < n implies !matches_at(s, pat, j) by {
        if matches_at(s, pat, j) {
            assert(s.subrange(j, j + pat.len())[0] == s[j]);
        }
    }
    lemma_find_first_at(s, pat, 0, n);
}

/// The reply built in `lemma_fenced_block_wins`.
spec fn fenced_reply(pre: Seq<char>, tag: Seq<char>, body: Seq<char>, post: Seq<char>) -> Seq<char> {
    pre + seq!['`', '`', '`'] + tag + seq!['\n'] + body + seq!['`', '`', '`'] + post
}

proof fn lemma_fenced_reply_trimmed(pre: Seq<char>, tag: Seq<char>, body: Seq<char>, post: Seq<char>)
    requires
        pre.len() > 0 ==> !is_white_space(pre[0]) && pre[0] != '[',
        post.len() > 0 ==> !is_white_space(post.last()),
    ensures
        trim(fenced_reply(pre, tag, body, post)) == fenced_reply(pre, tag, body, post),
        !starts_with_bracket(fenced_reply(pre, tag, body, post)),
{
    let text = fenced_reply(pre, tag, body, post);
    assert(text[0] == if pre.len() > 0 { pre[0] } else { '`' });
    assert(text.last() == if post.len() > 0 { post.last() } else { '`' });
    lemma_trim_of_clean(text);
}

#[verifier::spinoff_prover]
proof fn lemma_fenced_reply_block(pre: Seq<char>, tag: Seq<char>, body: Seq<char>, post: Seq<char>)
    requires
        forall|i: int| 0 <= i < pre.len() ==> pre[i] != '`',
        forall|i: int| 0 <= i < tag.len() ==> tag[i] != '\n',
        forall|i: int| 0 <= i < body.len() ==> body[i] != '`',
        starts_with_bracket(trim(body)),
    ensures
        fenced_array(fenced_reply(pre, tag, body, post)) == Some(trim(body)),
{
    let f = fence();
    let nl = newline();
    let text = fenced_reply(pre, tag, body, post);
    let n = pre.len() as int;
    let tl = tag.len() as int;
    let bl = body.len() as int;
    let rest1 = f + tag + nl + body + f + post;
    assert(text =~= pre + rest1);
    assert(rest1.take(3) =~= f);
    lemma_find_after_prefix(pre, rest1, f);
    let after = after_fence(text, n);
    let rest2 = nl + body + f + post;
    assert(after =~= tag + rest2);
    assert(rest2.take(1) =~= nl);
    lemma_find_after_prefix(tag, rest2, nl);
    let content = after.skip(tl + 1);
    let rest3 = f + post;
    assert(content =~= body + rest3);
    assert(rest3.take(3) =~= f);
    lemma_find_after_prefix(body, rest3, f);
    assert(content.take(bl) =~= body);
}

/// A reply made of prose (with no backtick, and starting neither with
/// whitespace nor with `[`), then a fenced block (three backticks, a tag
/// without a newline, a newline, a body without backticks whose trimmed
/// text starts with `[`, three backticks), then anything not ending in
/// whitespace, gives the trimmed body of the block, whatever brackets the
/// prose or the rest hold: the fenced block wins over the bracket span.
pub proof fn lemma_fenced_block_wins(pre: Seq<char>, tag: Seq<char>, body: Seq<char>, post: Seq<char>)
    requires
        forall|i: int| 0 <= i < pre.len() ==> pre[i] != '`',
        pre.len() > 0 ==> !is_white_space(pre[0]) && pre[0] != '[',
        forall|i: int| 0 <= i < tag.len() ==> tag[i] != '\n',
        forall|i: int| 0 <= i < body.len() ==> body[i] != '`',
        trim(body).len() > 0 && trim(body)[0] == '[',
        post.len() > 0 ==> !is_white_space(post.last()),
    ensures
        extracted_array(
            pre + seq!['`', '`', '`'] + tag + seq!['\n'] + body + seq!['`', '`', '`'] + post,
        ) == Some(trim(body)),
{
    lemma_fenced_reply_trimmed(pre, tag, body, post);
    lemma_fenced_reply_block(pre, tag, body, post);
}

} // verus!
