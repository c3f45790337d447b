//! Key normaliser: canonical form of free-text artist and album labels.
use vstd::prelude::*;
use crate::text::{
    alphanumeric, all_ascii, ascii_lower_char, chars_of, is_alphanumeric, is_ascii_upper,
    lowercase, lowered, no_ascii_upper, string_from_chars,
};

verus! {

pub open spec fn is_open_bracket(c: char) -> bool {
    c == '(' || c == '['
}

pub open spec fn is_close_bracket(c: char) -> bool {
    c == ')' || c == ']'
}

/// Kept text and bracket depth after reading `s` from left to right. An open
/// bracket deepens, a close bracket lifts (never below zero), and only text
/// read at depth zero is kept.
pub open spec fn strip_state(s: Seq<char>) -> (Seq<char>, nat)
    decreases s.len(),
{
    if s.len() == 0 {
        (Seq::empty(), 0)
    } else {
        let (kept, depth) = strip_state(s.drop_last());
        let c = s.last();
        if is_open_bracket(c) {
            (kept, depth + 1)
        } else if is_close_bracket(c) {
            (kept, if depth == 0 { 0 } else { (depth - 1) as nat })
        } else if depth == 0 {
            (kept.push(c), 0)
        } else {
            (kept, depth)
        }
    }
}

/// `s` without its bracketed runs; an unclosed bracket removes the rest.
pub open spec fn strip_brackets(s: Seq<char>) -> Seq<char> {
    strip_state(s).0
}

/// The alphanumeric characters of `s`, in order.
pub open spec fn keep_alnum(s: Seq<char>) -> Seq<char>
    decreases s.len(),
{
    if s.len() == 0 {
        Seq::empty()
    } else if alphanumeric(s.last()) {
        keep_alnum(s.drop_last()).push(s.last())
    } else {
        keep_alnum(s.drop_last())
    }
}

/// Canonical form of a label: lower-cased, bracketed runs removed, only
/// alphanumeric characters kept.
pub open spec fn normalized(s: Seq<char>) -> Seq<char> {
    keep_alnum(strip_brackets(lowered(s)))
}

/// Two labels name the same identity when their canonical forms agree.
pub open spec fn same_identity(a: Seq<char>, b: Seq<char>) -> bool {
    normalized(a) == normalized(b)
}

proof fn lemma_strip_depth_bound(s: Seq<char>)
    ensures
        strip_state(s).1 <= s.len(),
    decreases s.len(),
{
    if s.len() > 0 {
        lemma_strip_depth_bound(s.drop_last());
    }
}

/// Removes bracketed runs (see `strip_brackets`).
pub fn strip_bracketed(text: &str) -> (r: String)
    ensures
        r@ == strip_brackets(text@),
{
    let chars = chars_of(text);
    let mut kept: Vec<char> = Vec::new();
    let mut depth: usize = 0;
    let mut i: usize = 0;
    while i < chars.len()
        invariant
            i <= chars.len(),
            chars@ == text@,
            (kept@, depth as nat) == strip_state(chars@.subrange(0, i as int)),
        decreases chars.len() - i,
    {
        let c = chars[i];
        proof {
            let next = chars@.subrange(0, i + 1);
            assert(next.drop_last() =~= chars@.subrange(0, i as int));
            lemma_strip_depth_bound(chars@.subrange(0, i as int));
        }
        if c == '(' || c == '[' {
            depth = depth + 1;
        } else if c == ')' || c == ']' {
            if depth > 0 {
                depth = depth - 1;
            }
        } else if depth == 0 {
            kept.push(c);
        }
        i = i + 1;
    }
    assert(chars@.subrange(0, chars@.len() as int) =~= chars@);
    string_from_chars(&kept)
}

/// Keeps only the alphanumeric characters of `text`.
pub fn keep_alphanumeric(text: &str) -> (r: String)
    ensures
        r@ == keep_alnum(text@),
{
    let chars = chars_of(text);
    let mut kept: Vec<char> = Vec::new();
    let mut i: usize = 0;
    while i < chars.len()
        invariant
            i <= chars.len(),
            chars@ == text@,
            kept@ == keep_alnum(chars@.subrange(0, i as int)),
        decreases chars.len() - i,
    {
        let c = chars[i];
        proof {
            assert(chars@.subrange(0, i + 1).drop_last() =~= chars@.subrange(0, i as int));
        }
        if is_alphanumeric(c) {
            kept.push(c);
        }
        i = i + 1;
    }
    assert(chars@.subrange(0, chars@.len() as int) =~= chars@);
    string_from_chars(&kept)
}

/// Canonical form of a free-text label, for fuzzy identity comparison.
pub fn normalize(text: &str) -> (r: String)
    ensures
        r@ == normalized(text@),
{
    let lower = lowercase(text);
    let stripped = strip_bracketed(lower.as_str());
    keep_alphanumeric(stripped.as_str())
}

proof fn lemma_strip_keeps(s: Seq<char>, p: spec_fn(char) -> bool)
    requires
        forall|i: int| 0 <= i < s.len() ==> p(#[trigger] s[i]),
    ensures
        forall|k: int| 0 <= k < strip_brackets(s).len() ==> p(#[trigger] strip_brackets(s)[k]),
    decreases s.len(),
{
    if s.len() > 0 {
        let prefix = s.drop_last();
        assert forall|i: int| 0 <= i < prefix.len() implies p(#[trigger] prefix[i]) by {
            assert(prefix[i] == s[i]);
        }
        lemma_strip_keeps(prefix, p);
        let kept = strip_brackets(prefix);
        let c = s.last();
        assert(p(s[s.len() - 1]));
        assert forall|k: int|
            0 <= k < strip_brackets(s).len() implies p(#[trigger] strip_brackets(s)[k]) by {
            if k < kept.len() {
                assert(strip_brackets(s)[k] == kept[k]);
            } else {
                assert(strip_brackets(s)[k] == c);
            }
        }
    }
}

proof fn lemma_keep_alnum_keeps(s: Seq<char>, p: spec_fn(char) -> bool)
    requires
        forall|i: int| 0 <= i < s.len() ==> p(#[trigger] s[i]),
    ensures
        forall|k: int| 0 <= k < keep_alnum(s).len() ==> p(#[trigger] keep_alnum(s)[k]),
        forall|k: int| 0 <= k < keep_alnum(s).len() ==> alphanumeric(#[trigger] keep_alnum(s)[k]),
    decreases s.len(),
{
    if s.len() > 0 {
        let prefix = s.drop_last();
        assert forall|i: int| 0 <= i < prefix.len() implies p(#[trigger] prefix[i]) by {
            assert(prefix[i] == s[i]);
        }
        lemma_keep_alnum_keeps(prefix, p);
        let kept = keep_alnum(prefix);
        let c = s.last();
        assert(p(s[s.len() - 1]));
        assert forall|k: int| 0 <= k < keep_alnum(s).len() implies p(#[trigger] keep_alnum(s)[k])
            && alphanumeric(keep_alnum(s)[k]) by {
            if k < kept.len() {
                assert(keep_alnum(s)[k] == kept[k]);
            } else {
                assert(keep_alnum(s)[k] == c);
            }
        }
    }
}

proof fn lemma_strip_without_brackets(s: Seq<char>)
    requires
        forall|i: int|
            0 <= i < s.len() ==> !is_open_bracket(#[trigger] s[i]) && !is_close_bracket(s[i]),
    ensures
        strip_state(s) == (s, 0nat),
    decreases s.len(),
{
    if s.len() > 0 {
        let prefix = s.drop_last();
        assert forall|i: int|
            0 <= i < prefix.len() implies !is_open_bracket(#[trigger] prefix[i])
            && !is_close_bracket(prefix[i]) by {
            assert(prefix[i] == s[i]);
        }
        lemma_strip_without_brackets(prefix);
        assert(!is_open_bracket(s[s.len() - 1]) && !is_close_bracket(s[s.len() - 1]));
        assert(prefix.push(s.last()) =~= s);
    }
}

proof fn lemma_keep_alnum_fixes(s: Seq<char>)
    requires
        forall|i: int| 0 <= i < s.len() ==> alphanumeric(#[trigger] s[i]),
    ensures
        keep_alnum(s) == s,
    decreases s.len(),
{
    if s.len() > 0 {
        let prefix = s.drop_last();
        assert forall|i: int| 0 <= i < prefix.len() implies alphanumeric(#[trigger] prefix[i]) by {
            assert(prefix[i] == s[i]);
        }
        lemma_keep_alnum_fixes(prefix);
        assert(alphanumeric(s[s.len() - 1]));
        assert(prefix.push(s.last()) =~= s);
    }
}

/// Normalising is idempotent on ASCII labels: the canonical form of a
/// canonical form is itself.
pub proof fn lemma_normalize_idempotent(s: Seq<char>)
    requires
        all_ascii(s),
    ensures
        normalized(normalized(s)) == normalized(s),
{
    let low = lowered(s);
    let p = |c: char| (c as u32) < 128 && !is_ascii_upper(c);
    assert forall|i: int| 0 <= i < low.len() implies p(#[trigger] low[i]) by {
        assert(low[i] == ascii_lower_char(s[i]));
    }
    lemma_strip_keeps(low, p);
    let stripped = strip_brackets(low);
    lemma_keep_alnum_keeps(stripped, p);
    let n = keep_alnum(stripped);
    assert(all_ascii(n)) by {
        assert forall|i: int| 0 <= i < n.len() implies (#[trigger] n[i] as u32) < 128 by {
            assert(p(n[i]));
        }
    }
    assert(lowered(n) =~= n) by {
        assert forall|i: int| 0 <= i < n.len() implies #[trigger] lowered(n)[i] == n[i] by {
            assert(p(n[i]));
        }
    }
    assert forall|i: int|
        0 <= i < n.len() implies !is_open_bracket(#[trigger] n[i]) && !is_close_bracket(n[i]) by {
        assert(alphanumeric(n[i]));
        assert(p(n[i]));
    }
    lemma_strip_without_brackets(n);
    lemma_keep_alnum_fixes(n);
}

} // verus!
