//! What holds of the interpreter whatever the program: the order in which a
//! token is resolved, how conditionals and comments leave the rest of the
//! queue alone, how functions are defined and the anonymous one replaced,
//! how often a combinator applies it, that the step budget only interrupts
//! a run, and that the conversions invert each other.
use vstd::prelude::*;
use crate::control::{
    apply_keeping, apply_once, branch, find_word, fold_tokens, map_tokens, repeated,
    scan_tokens,
};
use crate::function::{
    find_function, lambda_name, lemma_find_function, lemma_not_found, lemma_without_has_none,
    without, FunctionModel,
};
use crate::fault::Reading;
use crate::machine::{reading_value, run, Command, HaltModel, Machine, Meaning, Signal};
use crate::numeral::{decimal, digits, law_digits_read_back};
use crate::queue::{depth_after, find_close, stops_at, Text};

verus! {

/// The nesting depth behind the first `k` tokens of `x`: the number of
/// `open` among them less the number of `close`.
pub open spec fn level(x: Seq<Text>, k: int, open: Text, close: Text) -> int
    decreases k,
{
    if k <= 0 {
        0
    } else {
        level(x, k - 1, open, close) + if x[k - 1] == open {
            1int
        } else if x[k - 1] == close {
            -1int
        } else {
            0int
        }
    }
}

/// Whether every `close` of `x` answers an earlier `open` of `x`, and every
/// `open` is answered.
pub open spec fn well_nested(x: Seq<Text>, open: Text, close: Text) -> bool {
    &&& forall|k: int| 0 <= k <= x.len() ==> #[trigger] level(x, k, open, close) >= 0
    &&& level(x, x.len() as int, open, close) == 0
}

/// Whether `word` stands in `x` only inside an `open` .. `close` pair.
pub open spec fn only_nested(x: Seq<Text>, word: Text, open: Text, close: Text) -> bool {
    forall|k: int| 0 <= k < x.len() && x[k] == word ==> #[trigger] level(x, k, open, close) > 0
}

/// The markers of the constructs are spelled differently.
pub proof fn lemma_markers_differ()
    ensures
        "ifeq"@ != "fi"@,
        "else"@ != "fi"@,
        "else"@ != "ifeq"@,
        "{"@ != "}"@,
        "rot"@ != "_"@,
{
    reveal_strlit("ifeq");
    reveal_strlit("fi");
    reveal_strlit("else");
    reveal_strlit("{");
    reveal_strlit("}");
    reveal_strlit("rot");
    reveal_strlit("_");
    assert("rot"@.len() == 3);
    assert("{"@[0] == '{');
    assert("else"@[0] == 'e');
    assert("ifeq"@[0] == 'i');
}

/// A scan that enters a well-nested span at the surface leaves it at the
/// surface, without stopping inside: from index `i` of the span on, at the
/// depth that the span has there, it finds what a scan finds that starts
/// behind the span.
pub proof fn lemma_scan_passes(
    q: Seq<Text>,
    start: int,
    x: Seq<Text>,
    i: int,
    open: Text,
    close: Text,
    alt: Option<Text>,
)
    requires
        open != close,
        0 <= start,
        start + x.len() <= q.len(),
        q.subrange(start, start + x.len()) == x,
        well_nested(x, open, close),
        alt is Some ==> only_nested(x, alt->Some_0, open, close),
        0 <= i <= x.len(),
    ensures
        level(x, i, open, close) >= 0,
        find_close(q, start + i, level(x, i, open, close) as nat, open, close, alt) == find_close(
            q,
            start + x.len(),
            0,
            open,
            close,
            alt,
        ),
    decreases x.len() - i,
{
    if i < x.len() {
        let d = level(x, i, open, close);
        let t = x[i];
        assert(level(x, i + 1, open, close) == d + if t == open {
            1int
        } else if t == close {
            -1int
        } else {
            0int
        });
        lemma_scan_passes(q, start, x, i + 1, open, close, alt);
    }
}

/// Dispatch priority: a token that names a native command is carried out as
/// that command, whatever else goes by its name; one that names a function
/// and no command is replaced by the body of the first function of that
/// name; one that names only a memory cell is replaced by the cell's value;
/// any other token is pushed as a literal.
pub proof fn law_dispatch_priority(m: Machine, t: Text)
    ensures
        m.cmds.dom().contains(t) ==> m.after_token(t) == m.after_native(m.cmds[t], t),
        !m.cmds.dom().contains(t) && find_function(m.fns, 0, t) is Some ==> m.after_token(t) == (
            m.spliced(m.fns[find_function(m.fns, 0, t).unwrap()].fops),
            Signal::Next,
        ),
        !m.cmds.dom().contains(t) && find_function(m.fns, 0, t) is None && m.mem.dom().contains(t)
            ==> m.after_token(t) == (m.spliced(seq![m.mem[t]]), Signal::Next),
        !m.cmds.dom().contains(t) && find_function(m.fns, 0, t) is None && !m.mem.dom().contains(
            t,
        ) ==> m.after_token(t) == (m.pushed(t), Signal::Next),
{
}

/// Conditional symmetry: where the queue behind an `ifeq` holds a
/// then-branch `x`, `else`, an else-branch `y`, `fi` and then `rest`, the
/// conditional leaves `x` before `rest` if the two values were equal and `y`
/// before `rest` if they were not, and touches nothing else. The branches
/// may hold conditionals of their own, each closed within its branch.
pub proof fn law_conditional_symmetry(
    m: Machine,
    x: Seq<Text>,
    y: Seq<Text>,
    rest: Seq<Text>,
    equal: bool,
)
    requires
        well_nested(x, "ifeq"@, "fi"@),
        only_nested(x, "else"@, "ifeq"@, "fi"@),
        well_nested(y, "ifeq"@, "fi"@),
        m.ops == x + seq!["else"@] + y + seq!["fi"@] + rest,
    ensures
        m.after_branch(equal) == (m.with_ops((if equal {
            x
        } else {
            y
        }) + rest), Signal::Next),
{
    lemma_markers_differ();
    let q = m.ops;
    let mid = x.len() as int;
    let end = mid + 1 + y.len();
    assert(q.subrange(0, mid) =~= x);
    assert(q.subrange(mid + 1, end) =~= y);
    lemma_scan_passes(q, 0, x, 0, "ifeq"@, "fi"@, Some("else"@));
    lemma_scan_passes(q, mid + 1, y, 0, "ifeq"@, "fi"@, None);
    assert(q.skip(end + 1) =~= rest);
}

/// Conditional symmetry without `else`: where the queue behind an `ifeq`
/// holds a then-branch `x`, `fi` and then `rest`, the conditional leaves `x`
/// before `rest` if the two values were equal and `rest` alone if they were
/// not.
pub proof fn law_conditional_without_else(m: Machine, x: Seq<Text>, rest: Seq<Text>, equal: bool)
    requires
        well_nested(x, "ifeq"@, "fi"@),
        only_nested(x, "else"@, "ifeq"@, "fi"@),
        m.ops == x + seq!["fi"@] + rest,
    ensures
        m.after_branch(equal) == (m.with_ops((if equal {
            x
        } else {
            Seq::empty()
        }) + rest), Signal::Next),
{
    lemma_markers_differ();
    let q = m.ops;
    let mid = x.len() as int;
    assert(q.subrange(0, mid) =~= x);
    assert(q[mid] == "fi"@);
    lemma_scan_passes(q, 0, x, 0, "ifeq"@, "fi"@, Some("else"@));
    assert(q.skip(mid + 1) =~= rest);
}

/// Nested conditionals: a whole conditional, with or without `else`, whose
/// branches are well nested is itself well nested and holds its `else` only
/// inside, so that it can stand in a branch of another conditional without
/// ending it.
pub proof fn law_conditional_nests(x: Seq<Text>, y: Seq<Text>)
    requires
        well_nested(x, "ifeq"@, "fi"@),
        well_nested(y, "ifeq"@, "fi"@),
        only_nested(x, "else"@, "ifeq"@, "fi"@),
        only_nested(y, "else"@, "ifeq"@, "fi"@),
    ensures
        well_nested(seq!["ifeq"@] + x + seq!["else"@] + y + seq!["fi"@], "ifeq"@, "fi"@),
        only_nested(seq!["ifeq"@] + x + seq!["else"@] + y + seq!["fi"@], "else"@, "ifeq"@, "fi"@),
        well_nested(seq!["ifeq"@] + x + seq!["fi"@], "ifeq"@, "fi"@),
        only_nested(seq!["ifeq"@] + x + seq!["fi"@], "else"@, "ifeq"@, "fi"@),
{
    lemma_markers_differ();
    let open = "ifeq"@;
    let close = "fi"@;
    let other = "else"@;
    let whole = seq![open] + x + seq![other] + y + seq![close];
    let short = seq![open] + x + seq![close];
    let a = x.len() as int;
    let b = y.len() as int;
    assert(whole.subrange(1, 1 + a) =~= x);
    assert(short.subrange(1, 1 + a) =~= x);
    assert(whole.subrange(a + 2, a + 2 + b) =~= y);
    assert(level(whole, 1, open, close) == 1) by {
        assert(level(whole, 0, open, close) == 0);
    }
    assert(level(short, 1, open, close) == 1) by {
        assert(level(short, 0, open, close) == 0);
    }
    assert forall|k: int| 0 <= k <= a implies #[trigger] level(whole, k + 1, open, close) == 1
        + level(x, k, open, close) by {
        lemma_level_shifted(whole, x, 1, k, open, close);
    }
    assert forall|k: int| 0 <= k <= a implies #[trigger] level(short, k + 1, open, close) == 1
        + level(x, k, open, close) by {
        lemma_level_shifted(short, x, 1, k, open, close);
    }
    assert(level(whole, a + 1, open, close) == 1);
    assert(level(whole, a + 2, open, close) == 1);
    assert forall|k: int| 0 <= k <= b implies #[trigger] level(whole, a + 2 + k, open, close) == 1
        + level(y, k, open, close) by {
        lemma_level_shifted(whole, y, a + 2, k, open, close);
    }
    assert(level(whole, a + b + 3, open, close) == 0) by {
        assert(level(whole, a + b + 2, open, close) == 1);
    }
    assert(level(short, a + 2, open, close) == 0) by {
        assert(level(short, a + 1, open, close) == 1);
    }
    assert forall|k: int| 0 <= k <= whole.len() implies #[trigger] level(whole, k, open, close)
        >= 0 by {
        if k == 0 {
        } else if k <= a + 1 {
            assert(level(whole, (k - 1) + 1, open, close) == 1 + level(x, k - 1, open, close));
        } else if k <= a + b + 2 {
            assert(level(whole, a + 2 + (k - a - 2), open, close) == 1 + level(
                y,
                k - a - 2,
                open,
                close,
            ));
        }
    }
    assert forall|k: int| 0 <= k <= short.len() implies #[trigger] level(short, k, open, close)
        >= 0 by {
        if k == 0 {
        } else if k <= a + 1 {
            assert(level(short, (k - 1) + 1, open, close) == 1 + level(x, k - 1, open, close));
        }
    }
    assert forall|k: int| 0 <= k < whole.len() && whole[k] == other implies #[trigger] level(
        whole,
        k,
        open,
        close,
    ) > 0 by {
        if k == 0 {
        } else if k <= a + 1 {
        } else if k <= a + b + 2 {
            assert(level(whole, a + 2 + (k - a - 2), open, close) == 1 + level(
                y,
                k - a - 2,
                open,
                close,
            ));
        }
    }
    assert forall|k: int| 0 <= k < short.len() && short[k] == other implies #[trigger] level(
        short,
        k,
        open,
        close,
    ) > 0 by {
    }
}

/// The depth inside a span that stands at `start` in `q` is the depth at
/// `start` plus the span's own depth.
pub proof fn lemma_level_shifted(
    q: Seq<Text>,
    x: Seq<Text>,
    start: int,
    k: int,
    open: Text,
    close: Text,
)
    requires
        0 <= start,
        start + x.len() <= q.len(),
        q.subrange(start, start + x.len()) == x,
        0 <= k <= x.len(),
    ensures
        level(q, start + k, open, close) == level(q, start, open, close) + level(x, k, open, close),
    decreases k,
{
    if k > 0 {
        lemma_level_shifted(q, x, start, k - 1, open, close);
    }
}

/// Comments are inert: where the queue behind a `{` holds a span `c` whose
/// inner comments are all closed, `}` and then `rest`, the comment leaves
/// `rest` and touches neither stack nor memory nor anything else, however
/// deep the comments in `c` are nested.
pub proof fn law_comment_is_inert(m: Machine, c: Seq<Text>, rest: Seq<Text>)
    requires
        well_nested(c, "{"@, "}"@),
        m.ops == c + seq!["}"@] + rest,
    ensures
        m.after_comment() == (m.with_ops(rest), Signal::Next),
{
    lemma_markers_differ();
    let q = m.ops;
    let end = c.len() as int;
    assert(q.subrange(0, end) =~= c);
    lemma_scan_passes(q, 0, c, 0, "{"@, "}"@, None);
    assert(q.skip(end + 1) =~= rest);
}

/// A comment costs one step and nothing else: a run that meets `{`, bound
/// to the comment command, before a well-nested span `c`, `}` and `rest`
/// arrives where a run of one step less arrives that starts on `rest`.
pub proof fn law_comment_skipped_in_run(m: Machine, c: Seq<Text>, rest: Seq<Text>, limit: nat)
    requires
        well_nested(c, "{"@, "}"@),
        m.ops == seq!["{"@] + c + seq!["}"@] + rest,
        m.cmds.dom().contains("{"@),
        m.cmds["{"@] == Command::Comment,
    ensures
        run(m, limit + 1) == run(m.with_ops(rest), limit),
{
    let behind = m.with_ops(m.ops.skip(1));
    assert(behind.ops =~= c + seq!["}"@] + rest);
    law_comment_is_inert(behind, c, rest);
}

/// The whole conditional: `ifeq` takes the two values that are compared off
/// the stack, and once the host has said whether they are equal, the state
/// is the one before the two values were pushed, with the chosen branch
/// before `rest` in the queue.
pub proof fn law_conditional_leaves_branch(
    m: Machine,
    op: Text,
    x: Seq<Text>,
    y: Seq<Text>,
    rest: Seq<Text>,
    equal: bool,
)
    requires
        m.stack.len() >= 2,
        well_nested(x, "ifeq"@, "fi"@),
        only_nested(x, "else"@, "ifeq"@, "fi"@),
        well_nested(y, "ifeq"@, "fi"@),
        m.ops == x + seq!["else"@] + y + seq!["fi"@] + rest,
    ensures
        m.after_ifeq(op).1 == (Signal::Compare { a: m.below(1), b: m.below(0) }),
        m.after_ifeq(op).0.after_branch(equal) == (m.popped(2).with_ops((if equal {
            x
        } else {
            y
        }) + rest), Signal::Next),
{
    law_conditional_symmetry(m.popped(2), x, y, rest, equal);
}

/// A search finds the word behind a span that does not hold it.
pub proof fn lemma_find_word_behind(q: Seq<Text>, i: int, k: int, word: Text)
    requires
        0 <= i <= k < q.len(),
        q[k] == word,
        forall|j: int| i <= j < k ==> q[j] != word,
    ensures
        find_word(q, i, word) == Some(k),
    decreases k - i,
{
    if i < k {
        lemma_find_word_behind(q, i + 1, k, word);
    }
}

/// The newest anonymous function is the only one: where the queue behind a
/// `[` holds a body without `]`, then `]` and `rest`, the definition leaves
/// `rest`, and the registry then holds exactly one function named `_`, with
/// that body, whatever it held before. A later `_` that names no native
/// command is replaced by that body.
pub proof fn law_lambda_replaces(m: Machine, body: Seq<Text>, rest: Seq<Text>)
    requires
        !body.contains("]"@),
        m.ops == body + seq!["]"@] + rest,
    ensures
        ({
            let (next, signal) = m.after_lambda();
            &&& signal == Signal::Next
            &&& next.ops == rest
            &&& next.stack == m.stack
            &&& next.fns.len() > 0
            &&& next.fns.last() == (FunctionModel { name: lambda_name(), fops: body })
            &&& forall|i: int|
                0 <= i < next.fns.len() - 1 ==> (#[trigger] next.fns[i]).name != lambda_name()
            &&& find_function(next.fns, 0, lambda_name()) == Some(next.fns.len() - 1)
            &&& !next.cmds.dom().contains(lambda_name()) ==> next.after_token(lambda_name()) == (
                next.spliced(body),
                Signal::Next,
            )
        }),
{
    let q = m.ops;
    let k = body.len() as int;
    assert forall|j: int| 0 <= j < k implies q[j] != "]"@ by {
    }
    lemma_find_word_behind(q, 0, k, "]"@);
    assert(q.take(k) =~= body);
    let (next, signal) = m.after_lambda();
    lemma_without_has_none(m.fns, lambda_name());
    assert forall|i: int| 0 <= i < next.fns.len() - 1 implies (#[trigger] next.fns[i]).name
        != lambda_name() by {
    }
    lemma_find_function(next.fns, 0, lambda_name(), next.fns.len() - 1);
}

/// How often `word` stands in `s`.
pub open spec fn occurrences(s: Seq<Text>, word: Text) -> nat
    decreases s.len(),
{
    if s.len() == 0 {
        0
    } else {
        occurrences(s.drop_last(), word) + if s.last() == word {
            1nat
        } else {
            0nat
        }
    }
}

/// Occurrences add up over concatenation.
pub proof fn lemma_occurrences_add(a: Seq<Text>, b: Seq<Text>, word: Text)
    ensures
        occurrences(a + b, word) == occurrences(a, word) + occurrences(b, word),
    decreases b.len(),
{
    if b.len() == 0 {
    } else {
        lemma_occurrences_add(a, b.drop_last(), word);
        assert((a + b).drop_last() =~= a + b.drop_last());
    }
}

/// `map` over `n` values calls the anonymous function `n` times.
pub proof fn lemma_map_calls(n: nat)
    ensures
        occurrences(map_tokens(n), lambda_name()) == n,
        map_tokens(n).len() == 2 * n,
    decreases n,
{
    lemma_markers_differ();
    let once = apply_once();
    assert(once.drop_last() =~= seq!["rot"@]);
    assert(seq!["rot"@].drop_last() =~= Seq::<Text>::empty());
    assert(occurrences(seq!["rot"@], lambda_name()) == 0) by {
        assert(occurrences(Seq::<Text>::empty(), lambda_name()) == 0);
    }
    if n > 0 {
        lemma_map_calls((n - 1) as nat);
        lemma_occurrences_add(once, repeated(once, (n - 1) as nat), lambda_name());
    }
}

/// Snapshot count: `map` on a stack of `n` values, with an anonymous
/// function defined, puts `n` calls of that function in front of the queue,
/// each behind one `rot`: the count is that of the stack at this moment, and
/// nothing that the calls do to the stack later changes it.
pub proof fn law_map_counts_once(m: Machine, op: Text)
    requires
        m.stack.len() >= 1,
        m.has_lambda(),
    ensures
        ({
            let (next, signal) = m.after_map(op);
            &&& signal == Signal::Next
            &&& next == m.with_ops(map_tokens(m.stack.len()) + m.ops)
            &&& occurrences(map_tokens(m.stack.len()), lambda_name()) == m.stack.len()
            &&& map_tokens(m.stack.len()).len() == 2 * m.stack.len()
        }),
{
    lemma_map_calls(m.stack.len());
}

/// `scan` over `n + 1` values calls the anonymous function `n` times.
pub proof fn lemma_scan_calls(n: nat)
    ensures
        occurrences(repeated(apply_keeping(), n), lambda_name()) == n,
    decreases n,
{
    lemma_markers_differ();
    reveal_strlit("dup");
    reveal_strlit("_");
    assert("dup"@.len() == 3);
    let keeping = apply_keeping();
    assert(keeping.drop_last() =~= seq!["dup"@, "rot"@]);
    assert(seq!["dup"@, "rot"@].drop_last() =~= seq!["dup"@]);
    assert(seq!["dup"@].drop_last() =~= Seq::<Text>::empty());
    assert(occurrences(seq!["dup"@], lambda_name()) == 0) by {
        assert(occurrences(Seq::<Text>::empty(), lambda_name()) == 0);
    }
    assert(occurrences(seq!["dup"@, "rot"@], lambda_name()) == 0);
    if n > 0 {
        lemma_scan_calls((n - 1) as nat);
        lemma_occurrences_add(keeping, repeated(keeping, (n - 1) as nat), lambda_name());
    }
}

/// Snapshot count of `fold` and `scan`: on a stack of `n` values, with an
/// anonymous function defined, each puts `n - 1` calls of that function in
/// front of the queue, counted once from the stack at this moment.
pub proof fn law_fold_and_scan_count_once(m: Machine, op: Text)
    requires
        m.stack.len() >= 3,
        m.has_lambda(),
    ensures
        m.after_fold(op) == (m.with_ops(fold_tokens(m.stack.len()) + m.ops), Signal::Next),
        m.after_scan(op) == (m.with_ops(scan_tokens(m.stack.len()) + m.ops), Signal::Next),
        occurrences(fold_tokens(m.stack.len()), lambda_name()) == m.stack.len() - 1,
        occurrences(scan_tokens(m.stack.len()), lambda_name()) == m.stack.len() - 1,
{
    let n = (m.stack.len() - 1) as nat;
    lemma_map_calls(n);
    lemma_scan_calls(n);
    lemma_markers_differ();
    lemma_occurrences_add(seq!["rot"@], repeated(apply_keeping(), n), lambda_name());
    assert(seq!["rot"@].drop_last() =~= Seq::<Text>::empty());
    assert(occurrences(seq!["rot"@], lambda_name()) == 0) by {
        assert(occurrences(Seq::<Text>::empty(), lambda_name()) == 0);
    }
}

/// Conversions invert each other: a number up to the largest signed
/// 64-bit value that `dec_hex` writes in hexadecimal is read back by
/// `hex_dec`, and one that `dec_bin` writes in binary by `bin_dec`; what is
/// pushed in the end is the number in decimal without sign or leading
/// zeros.
pub proof fn law_conversions_invert(m: Machine, v: int, there: Text, back: Text)
    requires
        m.stack.len() >= 1,
        reading_value(m.top(), Reading::Unsigned) == Some(v),
        v <= i64::MAX,
    ensures
        m.after_conversion(Command::DecHex, there).0.after_conversion(Command::HexDec, back) == (
            m.popped(1).pushed(decimal(v)),
            Signal::Next,
        ),
        m.after_conversion(Command::DecBin, there).0.after_conversion(Command::BinDec, back) == (
            m.popped(1).pushed(decimal(v)),
            Signal::Next,
        ),
{
    law_digits_read_back(v as nat, 16);
    law_digits_read_back(v as nat, 2);
    let hex = m.popped(1).pushed(digits(v as nat, 16));
    let bin = m.popped(1).pushed(digits(v as nat, 2));
    assert(hex.popped(1).stack =~= m.popped(1).stack);
    assert(bin.popped(1).stack =~= m.popped(1).stack);
}

/// The step budget only interrupts: a run that stopped because its budget
/// of `spent` steps was used up, and is then resumed for `more` steps,
/// arrives where one run of `spent + more` steps arrives.
pub proof fn law_run_resumes(m: Machine, spent: nat, more: nat)
    requires
        run(m, spent).1 == HaltModel::Limit,
    ensures
        run(m, spent + more) == run(run(m, spent).0, more),
    decreases spent,
{
    if m.ops.len() > 0 && spent > 0 {
        let (next, signal) = m.step();
        if signal == Signal::Next {
            law_run_resumes(next, (spent - 1) as nat, more);
        }
    }
}

/// A run that came to a halt for another reason than its budget comes to
/// the same halt in the same state with any larger budget.
pub proof fn law_budget_is_neutral(m: Machine, spent: nat, more: nat)
    requires
        run(m, spent).1 != HaltModel::Limit,
    ensures
        run(m, spent + more) == run(m, spent),
    decreases spent,
{
    if m.ops.len() > 0 && spent > 0 {
        let (next, signal) = m.step();
        if signal == Signal::Next {
            law_budget_is_neutral(next, (spent - 1) as nat, more);
        }
    }
}

/// A named function is called by its name: where the queue behind a `(`
/// holds a name, a body without `)`, then `)` and `rest`, the definition
/// leaves `rest` and enters the function behind those that the registry
/// holds. A later token of that name is replaced by the body, unless the
/// name is that of a native command or of an earlier function.
pub proof fn law_function_is_called(m: Machine, name: Text, body: Seq<Text>, rest: Seq<Text>)
    requires
        !body.contains(")"@),
        m.ops == seq![name] + body + seq![")"@] + rest,
    ensures
        ({
            let (next, signal) = m.after_function();
            &&& signal == Signal::Next
            &&& next == Machine {
                ops: rest,
                fns: m.fns.push(FunctionModel { name, fops: body }),
                ..m
            }
            &&& !m.cmds.dom().contains(name) && find_function(m.fns, 0, name) is None
                ==> next.after_token(name) == (next.spliced(body), Signal::Next)
        }),
{
    let q = m.ops;
    let k = body.len() as int + 1;
    assert(q[k] == ")"@);
    assert forall|j: int| 1 <= j < k implies q[j] != ")"@ by {
        assert(q[j] == body[j - 1]);
        assert(body.contains(body[j - 1]));
    }
    lemma_find_word_behind(q, 1, k, ")"@);
    assert(q.subrange(1, k) =~= body);
    assert(q.skip(k + 1) =~= rest);
    let (next, signal) = m.after_function();
    if find_function(m.fns, 0, name) is None {
        lemma_not_found(m.fns, 0, name);
        assert forall|j: int| 0 <= j < m.fns.len() implies (#[trigger] next.fns[j]).name
            != name by {
            assert(next.fns[j] == m.fns[j]);
        }
        lemma_find_function(next.fns, 0, name, m.fns.len() as int);
    }
}

/// Literals are pushed in order: a run that meets the tokens `values`,
/// none of which names a command, a function or a memory cell, before
/// `rest` arrives where a run arrives that starts on `rest` with the values
/// on the stack, in as many steps less as there are values.
pub proof fn law_literals_are_pushed(m: Machine, values: Seq<Text>, rest: Seq<Text>, limit: nat)
    requires
        m.ops == values + rest,
        forall|i: int| 0 <= i < values.len() ==> m.meaning(#[trigger] values[i]) == Meaning::Literal,
    ensures
        run(m, values.len() + limit) == run(
            Machine { ops: rest, stack: m.stack + values, ..m },
            limit,
        ),
    decreases values.len(),
{
    if values.len() == 0 {
        assert(values + rest =~= rest);
        assert(m.stack + values =~= m.stack);
    } else {
        let first = values[0];
        let (next, signal) = m.step();
        assert(m.ops[0] == first);
        assert(m.with_ops(m.ops.skip(1)).meaning(first) == m.meaning(first));
        assert(next.ops =~= values.skip(1) + rest);
        assert forall|i: int| 0 <= i < values.skip(1).len() implies next.meaning(
            #[trigger] values.skip(1)[i],
        ) == Meaning::Literal by {
            assert(values.skip(1)[i] == values[i + 1]);
            assert(next.meaning(values[i + 1]) == m.meaning(values[i + 1]));
        }
        law_literals_are_pushed(next, values.skip(1), rest, limit);
        assert(next.stack + values.skip(1) =~= m.stack + values);
    }
}

} // verus!
