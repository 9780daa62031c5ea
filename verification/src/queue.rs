//! Token sequences: the mathematical view of a list of tokens, the
//! depth-tracked search for the marker that closes a construct, and the two
//! primitives every rewrite of the operation queue is made of: taking a span
//! off the front and splicing a span onto the front.
use vstd::prelude::*;
use vstd::string::*;

verus! {

/// A token as contracts see it: its characters.
pub type Text = Seq<char>;

/// The spelling of each token of a list, in order.
pub open spec fn texts(v: Seq<String>) -> Seq<Text> {
    Seq::new(v.len(), |i: int| v[i]@)
}

/// `texts` follows concatenation.
pub proof fn lemma_texts_add(a: Seq<String>, b: Seq<String>)
    ensures
        texts(a + b) == texts(a) + texts(b),
{
}

/// `texts` follows the taking of a subrange.
pub proof fn lemma_texts_subrange(a: Seq<String>, i: int, j: int)
    requires
        0 <= i <= j <= a.len(),
    ensures
        texts(a.subrange(i, j)) == texts(a).subrange(i, j),
{
}

/// `texts` follows `push`.
pub proof fn lemma_texts_push(a: Seq<String>, s: String)
    ensures
        texts(a.push(s)) == texts(a).push(s@),
{
}

/// The depth after passing token `t` at depth `depth`, where `open` goes one
/// level down and `close` comes one level up (never above the surface).
pub open spec fn depth_after(depth: nat, t: Text, open: Text, close: Text) -> nat {
    if t == open {
        depth + 1
    } else if t == close && depth > 0 {
        (depth - 1) as nat
    } else {
        depth
    }
}

/// Whether the scan stops at token `t` seen at depth `depth`: only at the
/// surface, on `close` or on the alternative marker `alt` if there is one.
pub open spec fn stops_at(depth: nat, t: Text, close: Text, alt: Option<Text>) -> bool {
    depth == 0 && (t == close || alt == Some(t))
}

/// The index, from `i` on, of the first token at which a scan that starts at
/// `i` with depth `depth` stops; `None` if the tokens run out first.
pub open spec fn find_close(
    q: Seq<Text>,
    i: int,
    depth: nat,
    open: Text,
    close: Text,
    alt: Option<Text>,
) -> Option<int>
    decreases q.len() - i,
{
    if i < 0 || i >= q.len() {
        None
    } else if stops_at(depth, q[i], close, alt) {
        Some(i)
    } else {
        find_close(q, i + 1, depth_after(depth, q[i], open, close), open, close, alt)
    }
}

/// The spelling of an optional marker.
pub open spec fn opt_text(alt: Option<&String>) -> Option<Text> {
    match alt {
        Some(a) => Some(a@),
        None => None,
    }
}

/// Scans `ops` from `start` at the surface for the marker that closes the
/// construct, skipping nested `open` .. `close` pairs.
pub fn scan_close(
    ops: &Vec<String>,
    start: usize,
    open: &String,
    close: &String,
    alt: Option<&String>,
) -> (r: Option<usize>)
    requires
        start <= ops.len(),
    ensures
        match r {
            Some(k) => find_close(texts(ops@), start as int, 0, open@, close@, opt_text(alt))
                == Some(k as int) && start <= k < ops.len(),
            None => find_close(texts(ops@), start as int, 0, open@, close@, opt_text(alt))
                is None,
        },
{
    let ghost q = texts(ops@);
    let ghost goal = find_close(q, start as int, 0, open@, close@, opt_text(alt));
    let mut i: usize = start;
    let mut depth: usize = 0;
    while i < ops.len()
        invariant
            start <= i <= ops.len(),
            depth <= i - start,
            q == texts(ops@),
            goal == find_close(q, start as int, 0, open@, close@, opt_text(alt)),
            goal == find_close(q, i as int, depth as nat, open@, close@, opt_text(alt)),
        decreases ops.len() - i,
    {
        let t = &ops[i];
        let is_close = *t == *close;
        let is_alt = match alt {
            Some(a) => *t == *a,
            None => false,
        };
        if depth == 0 && (is_close || is_alt) {
            return Some(i);
        }
        if *t == *open {
            depth = depth + 1;
        } else if is_close {
            depth = depth - 1;
        }
        i = i + 1;
    }
    None
}

/// A copy of a list of tokens.
pub fn copy_tokens(v: &Vec<String>) -> (r: Vec<String>)
    ensures
        texts(r@) == texts(v@),
{
    let mut out: Vec<String> = Vec::new();
    let mut i: usize = 0;
    while i < v.len()
        invariant
            i <= v.len(),
            out.len() == i,
            forall|j: int| 0 <= j < i ==> (#[trigger] out[j])@ == v[j]@,
        decreases v.len() - i,
    {
        out.push(v[i].clone());
        i = i + 1;
    }
    out
}

/// Takes the first `n` tokens off the front of `ops` and returns them.
pub fn take_front(ops: &mut Vec<String>, n: usize) -> (span: Vec<String>)
    requires
        n <= old(ops).len(),
    ensures
        span@ == old(ops)@.subrange(0, n as int),
        final(ops)@ == old(ops)@.subrange(n as int, old(ops).len() as int),
        texts(span@) == texts(old(ops)@).subrange(0, n as int),
        texts(final(ops)@) == texts(old(ops)@).subrange(n as int, old(ops).len() as int),
{
    let mut rest = ops.split_off(n);
    core::mem::swap(ops, &mut rest);
    proof {
        lemma_texts_subrange(old(ops)@, 0, n as int);
        lemma_texts_subrange(old(ops)@, n as int, old(ops).len() as int);
    }
    rest
}

/// Splices `span` onto the front of `ops`, keeping its order.
pub fn splice_front(ops: &mut Vec<String>, span: Vec<String>)
    ensures
        final(ops)@ == span@ + old(ops)@,
        texts(final(ops)@) == texts(span@) + texts(old(ops)@),
{
    let mut joined = span;
    joined.append(ops);
    core::mem::swap(ops, &mut joined);
    proof {
        lemma_texts_add(span@, old(ops)@);
    }
}

} // verus!
