//! The rewrites of the operation queue behind the control-flow commands:
//! capturing a function body, choosing a branch of a conditional, skipping a
//! comment, and injecting the tokens of a combinator. Each is a function
//! from the queue before to the queue after, stated over token spellings.
use vstd::prelude::*;
use vstd::string::*;
use crate::fault::{Construct, Fault, FaultModel};
use crate::function::{Function, FunctionModel};
use crate::queue::{
    find_close, lemma_texts_push, lemma_texts_subrange, scan_close, splice_front, take_front,
    texts, Text,
};

verus! {

/// The index, from `i` on, of the first token spelled `word`.
pub open spec fn find_word(q: Seq<Text>, i: int, word: Text) -> Option<int>
    decreases q.len() - i,
{
    if i < 0 || i >= q.len() {
        None
    } else if q[i] == word {
        Some(i)
    } else {
        find_word(q, i + 1, word)
    }
}

/// Searches `ops` from `start` for the first token spelled like `word`.
pub fn scan_word(ops: &Vec<String>, start: usize, word: &String) -> (r: Option<usize>)
    requires
        start <= ops.len(),
    ensures
        match r {
            Some(k) => find_word(texts(ops@), start as int, word@) == Some(k as int) && start <= k
                < ops.len(),
            None => find_word(texts(ops@), start as int, word@) is None,
        },
{
    let ghost q = texts(ops@);
    let ghost goal = find_word(q, start as int, word@);
    let mut i: usize = start;
    while i < ops.len()
        invariant
            start <= i <= ops.len(),
            q == texts(ops@),
            goal == find_word(q, start as int, word@),
            goal == find_word(q, i as int, word@),
        decreases ops.len() - i,
    {
        if ops[i] == *word {
            return Some(i);
        }
        i = i + 1;
    }
    None
}

/// What the definition of a named function makes of queue `q`, which starts
/// behind the `(`: the function, and the queue that is left. The first token
/// is the name; the body runs up to the first `)`, which is dropped.
pub open spec fn function_capture(q: Seq<Text>) -> Option<(FunctionModel, Seq<Text>)> {
    match find_word(q, 1, ")"@) {
        Some(k) => Some((FunctionModel { name: q[0], fops: q.subrange(1, k) }, q.skip(k + 1))),
        None => None,
    }
}

/// What the definition of an anonymous function makes of queue `q`, which
/// starts behind the `[`: the body, up to the first `]`, and the queue that
/// is left.
pub open spec fn lambda_capture(q: Seq<Text>) -> Option<(Seq<Text>, Seq<Text>)> {
    match find_word(q, 0, "]"@) {
        Some(k) => Some((q.take(k), q.skip(k + 1))),
        None => None,
    }
}

/// The index of the `else` or `fi` that ends the then-branch of a
/// conditional whose `ifeq` stood before `q`.
pub open spec fn then_end(q: Seq<Text>) -> Option<int> {
    find_close(q, 0, 0, "ifeq"@, "fi"@, Some("else"@))
}

/// The index of the `fi` that ends the conditional whose then-branch ends at
/// index `m` of `q`.
pub open spec fn conditional_end(q: Seq<Text>, m: int) -> Option<int> {
    if q[m] == "fi"@ {
        Some(m)
    } else {
        find_close(q, m + 1, 0, "ifeq"@, "fi"@, None)
    }
}

/// What a conditional makes of queue `q`, which starts behind the `ifeq`:
/// the chosen branch (the then-branch where `equal`, else the else-branch,
/// or nothing where there is none) followed by what stood behind the `fi`.
/// `None` where the conditional is not closed.
pub open spec fn branch(q: Seq<Text>, equal: bool) -> Option<Seq<Text>> {
    match then_end(q) {
        Some(m) => match conditional_end(q, m) {
            Some(e) => Some(
                (if equal {
                    q.take(m)
                } else {
                    q.subrange(m + 1, if m < e { e } else { m + 1 })
                }) + q.skip(e + 1),
            ),
            None => None,
        },
        None => None,
    }
}

/// The index of the `}` that ends the comment whose `{` stood before `q`.
pub open spec fn comment_end(q: Seq<Text>) -> Option<int> {
    find_close(q, 0, 0, "{"@, "}"@, None)
}

/// What a comment makes of queue `q`, which starts behind the `{`: what
/// stood behind the matching `}`. `None` where the comment is not closed.
pub open spec fn comment_skip(q: Seq<Text>) -> Option<Seq<Text>> {
    match comment_end(q) {
        Some(e) => Some(q.skip(e + 1)),
        None => None,
    }
}

/// `pattern` written `n` times in a row.
pub open spec fn repeated(pattern: Seq<Text>, n: nat) -> Seq<Text>
    decreases n,
{
    if n == 0 {
        Seq::empty()
    } else {
        pattern + repeated(pattern, (n - 1) as nat)
    }
}

/// The tokens that apply the anonymous function to one value: bring the
/// value to the top, then call.
pub open spec fn apply_once() -> Seq<Text> {
    seq!["rot"@, "_"@]
}

/// The tokens that apply the anonymous function to one value while keeping
/// the running result.
pub open spec fn apply_keeping() -> Seq<Text> {
    seq!["dup"@, "rot"@, "_"@]
}

/// What `map` puts in front of the queue for a stack of `depth` values.
pub open spec fn map_tokens(depth: nat) -> Seq<Text> {
    repeated(apply_once(), depth)
}

/// What `fold` puts in front of the queue for a stack of `depth` values.
pub open spec fn fold_tokens(depth: nat) -> Seq<Text> {
    repeated(apply_once(), (depth - 1) as nat)
}

/// What `scan` puts in front of the queue for a stack of `depth` values.
pub open spec fn scan_tokens(depth: nat) -> Seq<Text> {
    seq!["rot"@] + repeated(apply_keeping(), (depth - 1) as nat)
}

/// Captures a named function from the front of the queue.
pub fn capture_function(ops: &mut Vec<String>) -> (r: Result<Function, Fault>)
    ensures
        match function_capture(texts(old(ops)@)) {
            Some((f, rest)) => r is Ok && r->Ok_0@ == f && texts(final(ops)@) == rest,
            None => r is Err && r->Err_0@ == (FaultModel::Unterminated {
                construct: Construct::Function,
            }) && final(ops)@ == old(ops)@,
        },
{
    let close = String::from_str(")");
    if ops.len() == 0 {
        return Err(Fault::Unterminated { construct: Construct::Function });
    }
    match scan_word(ops, 1, &close) {
        None => Err(Fault::Unterminated { construct: Construct::Function }),
        Some(k) => {
            let mut head = take_front(ops, k + 1);
            head.truncate(k);
            let body = head.split_off(1);
            let name = head.pop().unwrap();
            proof {
                let h = old(ops)@.subrange(0, k + 1);
                assert(h.subrange(0, k as int).subrange(1, k as int) =~= old(ops)@.subrange(
                    1,
                    k as int,
                ));
                lemma_texts_subrange(old(ops)@, 1, k as int);
            }
            Ok(Function { name, fops: body })
        },
    }
}

/// Captures the body of an anonymous function from the front of the queue.
pub fn capture_lambda(ops: &mut Vec<String>) -> (r: Result<Vec<String>, Fault>)
    ensures
        match lambda_capture(texts(old(ops)@)) {
            Some((body, rest)) => r is Ok && texts(r->Ok_0@) == body && texts(final(ops)@) == rest,
            None => r is Err && r->Err_0@ == (FaultModel::Unterminated {
                construct: Construct::Lambda,
            }) && final(ops)@ == old(ops)@,
        },
{
    let close = String::from_str("]");
    match scan_word(ops, 0, &close) {
        None => Err(Fault::Unterminated { construct: Construct::Lambda }),
        Some(k) => {
            let mut head = take_front(ops, k + 1);
            head.truncate(k);
            proof {
                assert(old(ops)@.subrange(0, k + 1).subrange(0, k as int) =~= old(ops)@.subrange(
                    0,
                    k as int,
                ));
                lemma_texts_subrange(old(ops)@, 0, k as int);
            }
            Ok(head)
        },
    }
}

/// Replaces the conditional at the front of the queue by the branch that
/// `equal` selects.
pub fn choose_branch(ops: &mut Vec<String>, equal: bool) -> (r: Result<(), Fault>)
    ensures
        match branch(texts(old(ops)@), equal) {
            Some(next) => r is Ok && texts(final(ops)@) == next,
            None => r is Err && r->Err_0@ == (FaultModel::Unterminated {
                construct: Construct::Conditional,
            }) && final(ops)@ == old(ops)@,
        },
{
    let open = String::from_str("ifeq");
    let close = String::from_str("fi");
    let other = String::from_str("else");
    let m = match scan_close(ops, 0, &open, &close, Some(&other)) {
        None => {
            return Err(Fault::Unterminated { construct: Construct::Conditional });
        },
        Some(m) => m,
    };
    let e = if ops[m] == close {
        m
    } else {
        match scan_close(ops, m + 1, &open, &close, None) {
            None => {
                return Err(Fault::Unterminated { construct: Construct::Conditional });
            },
            Some(e) => e,
        }
    };
    let mut head = take_front(ops, e + 1);
    let ghost h = head@;
    let chosen = if equal {
        head.truncate(m);
        proof {
            lemma_texts_subrange(old(ops)@, 0, m as int);
        }
        head
    } else if m < e {
        head.truncate(e);
        let _ = take_front(&mut head, m + 1);
        proof {
            assert(h.subrange(0, e as int).subrange(m + 1, e as int) =~= old(ops)@.subrange(
                m + 1,
                e as int,
            ));
            lemma_texts_subrange(old(ops)@, m + 1, e as int);
        }
        head
    } else {
        Vec::new()
    };
    splice_front(ops, chosen);
    Ok(())
}

/// Removes the comment at the front of the queue, its closing `}` included.
pub fn skip_comment(ops: &mut Vec<String>) -> (r: Result<(), Fault>)
    ensures
        match comment_skip(texts(old(ops)@)) {
            Some(next) => r is Ok && texts(final(ops)@) == next,
            None => r is Err && r->Err_0@ == (FaultModel::Unterminated {
                construct: Construct::Comment,
            }) && final(ops)@ == old(ops)@,
        },
{
    let open = String::from_str("{");
    let close = String::from_str("}");
    match scan_close(ops, 0, &open, &close, None) {
        None => Err(Fault::Unterminated { construct: Construct::Comment }),
        Some(e) => {
            let _ = take_front(ops, e + 1);
            Ok(())
        },
    }
}

/// Builds `pattern` written `n` times in a row.
pub fn repeat_tokens(pattern: &Vec<String>, n: usize) -> (r: Vec<String>)
    ensures
        texts(r@) == repeated(texts(pattern@), n as nat),
{
    let mut out: Vec<String> = Vec::new();
    let mut done: usize = 0;
    while done < n
        invariant
            done <= n,
            texts(out@) == repeated(texts(pattern@), done as nat),
        decreases n - done,
    {
        let ghost before = texts(out@);
        let mut j: usize = 0;
        while j < pattern.len()
            invariant
                j <= pattern.len(),
                texts(out@) == before + texts(pattern@).take(j as int),
            decreases pattern.len() - j,
        {
            let ghost prev = out@;
            out.push(pattern[j].clone());
            proof {
                lemma_texts_push(prev, out@.last());
                assert(before + texts(pattern@).take(j + 1) =~= (before + texts(pattern@).take(
                    j as int,
                )).push(pattern[j as int]@));
            }
            j = j + 1;
        }
        proof {
            lemma_repeated_append(texts(pattern@), done as nat);
        }
        done = done + 1;
    }
    out
}

/// Writing the pattern once more behind `n` copies gives `n + 1` copies.
pub proof fn lemma_repeated_append(pattern: Seq<Text>, n: nat)
    ensures
        repeated(pattern, n) + pattern == repeated(pattern, n + 1),
    decreases n,
{
    if n == 0 {
    } else {
        lemma_repeated_append(pattern, (n - 1) as nat);
        assert(repeated(pattern, n) + pattern =~= pattern + (repeated(pattern, (n - 1) as nat)
            + pattern));
    }
}

} // verus!
