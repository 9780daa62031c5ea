//! The colours of the output, and the part of a path that is shown in
//! colour. Painting itself is left to the host.
use vstd::prelude::*;
use vstd::string::*;

verus! {

/// A colour in red, green and blue, plain or bold.
#[derive(Clone, Copy, Debug, PartialEq, Eq, Structural)]
pub struct Color {
    pub r: u8,
    pub g: u8,
    pub b: u8,
    pub bold: bool,
}

/// The colours that the output uses.
#[derive(Clone, Copy, Debug)]
pub struct Theme {
    pub blue_smurf: Color,
    pub blue_coffee_bold: Color,
    pub blue_smurf_bold: Color,
    pub cream: Color,
    pub cream_bold: Color,
    pub charcoal_cream: Color,
    pub green_eggs: Color,
    pub green_eggs_bold: Color,
    pub grey_mouse: Color,
    pub orange_sherbet: Color,
    pub red: Color,
    pub red_bold: Color,
    pub yellow_canary_bold: Color,
    pub white: Color,
    pub white_bold: Color,
}

/// The standard colours.
pub open spec fn standard_theme() -> Theme {
    Theme {
        blue_smurf: Color { r: 0, g: 128, b: 255, bold: false },
        blue_coffee_bold: Color { r: 0, g: 192, b: 255, bold: true },
        blue_smurf_bold: Color { r: 0, g: 128, b: 255, bold: true },
        cream: Color { r: 250, g: 246, b: 228, bold: false },
        cream_bold: Color { r: 250, g: 246, b: 228, bold: true },
        charcoal_cream: Color { r: 102, g: 102, b: 102, bold: false },
        green_eggs: Color { r: 135, g: 255, b: 175, bold: false },
        green_eggs_bold: Color { r: 135, g: 255, b: 175, bold: true },
        grey_mouse: Color { r: 115, g: 115, b: 115, bold: false },
        orange_sherbet: Color { r: 239, g: 157, b: 110, bold: false },
        red: Color { r: 241, g: 95, b: 73, bold: false },
        red_bold: Color { r: 241, g: 95, b: 73, bold: true },
        yellow_canary_bold: Color { r: 255, g: 252, b: 103, bold: true },
        white: Color { r: 255, g: 255, b: 255, bold: false },
        white_bold: Color { r: 255, g: 255, b: 255, bold: true },
    }
}

impl Theme {
    /// The standard colours.
    pub fn new() -> (r: Self)
        ensures
            r == standard_theme(),
    {
        Theme {
            blue_smurf: Color { r: 0, g: 128, b: 255, bold: false },
            blue_coffee_bold: Color { r: 0, g: 192, b: 255, bold: true },
            blue_smurf_bold: Color { r: 0, g: 128, b: 255, bold: true },
            cream: Color { r: 250, g: 246, b: 228, bold: false },
            cream_bold: Color { r: 250, g: 246, b: 228, bold: true },
            charcoal_cream: Color { r: 102, g: 102, b: 102, bold: false },
            green_eggs: Color { r: 135, g: 255, b: 175, bold: false },
            green_eggs_bold: Color { r: 135, g: 255, b: 175, bold: true },
            grey_mouse: Color { r: 115, g: 115, b: 115, bold: false },
            orange_sherbet: Color { r: 239, g: 157, b: 110, bold: false },
            red: Color { r: 241, g: 95, b: 73, bold: false },
            red_bold: Color { r: 241, g: 95, b: 73, bold: true },
            yellow_canary_bold: Color { r: 255, g: 252, b: 103, bold: true },
            white: Color { r: 255, g: 255, b: 255, bold: false },
            white_bold: Color { r: 255, g: 255, b: 255, bold: true },
        }
    }
}

/// What stands behind the last `/` of `s`, or all of `s` where it holds no
/// `/`.
pub open spec fn after_last_slash(s: Seq<char>) -> Seq<char>
    decreases s.len(),
{
    if s.len() == 0 || s.last() == '/' {
        Seq::empty()
    } else {
        after_last_slash(s.drop_last()).push(s.last())
    }
}

/// The file name that a path ends in: what stands behind its last `/`, and
/// nothing where the path holds no `/`.
pub open spec fn file_name_of(path: Seq<char>) -> Seq<char> {
    if path.contains('/') {
        after_last_slash(path)
    } else {
        Seq::empty()
    }
}

/// A tail without `/` is what stands behind the last `/`, where a `/`
/// stands before it or it is the whole text.
pub proof fn lemma_after_last_slash(s: Seq<char>, cut: int)
    requires
        0 <= cut <= s.len(),
        cut > 0 ==> s[cut - 1] == '/',
        forall|j: int| cut <= j < s.len() ==> s[j] != '/',
    ensures
        after_last_slash(s) == s.skip(cut),
    decreases s.len(),
{
    if s.len() == 0 || cut == s.len() {
    } else {
        lemma_after_last_slash(s.drop_last(), cut);
    }
}

/// The file name that `path` ends in.
pub fn file_name(path: &str) -> (r: String)
    ensures
        r@ == file_name_of(path@),
{
    let len = path.unicode_len();
    let mut cut: usize = len;
    while cut > 0 && path.get_char(cut - 1) != '/'
        invariant
            cut <= len,
            len == path@.len(),
            forall|j: int| cut <= j < len ==> path@[j] != '/',
        decreases cut,
    {
        cut = cut - 1;
    }
    proof {
        lemma_after_last_slash(path@, cut as int);
    }
    if cut == 0 {
        String::new()
    } else {
        String::from_str(path.substring_char(cut, len))
    }
}

} // verus!
