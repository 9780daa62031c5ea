//! The marks that annotate the levels of the stack when it is shown.
use vstd::prelude::*;

verus! {

/// The mark of stack level `level`, where level 1 is the top: the letters
/// `a` to `h` with a full stop for the eight top levels, blanks below.
pub open spec fn level_mark(level: nat) -> Seq<char> {
    if 1 <= level <= 8 {
        seq![(96 + level) as char, '.']
    } else {
        seq![' ', ' ']
    }
}

/// The mark that annotates stack level `level`.
pub fn annotate_level(level: usize) -> (r: &'static str)
    ensures
        r@ == level_mark(level as nat),
{
    proof {
        reveal_strlit("a.");
        reveal_strlit("b.");
        reveal_strlit("c.");
        reveal_strlit("d.");
        reveal_strlit("e.");
        reveal_strlit("f.");
        reveal_strlit("g.");
        reveal_strlit("h.");
        reveal_strlit("  ");
    }
    let r = match level {
        1 => "a.",
        2 => "b.",
        3 => "c.",
        4 => "d.",
        5 => "e.",
        6 => "f.",
        7 => "g.",
        8 => "h.",
        _ => "  ",
    };
    assert(r@ =~= level_mark(level as nat));
    r
}

} // verus!
