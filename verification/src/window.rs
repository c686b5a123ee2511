//! Choices that the host makes for its window.

use vstd::prelude::*;
use vstd::string::StrSliceExecFns;
use crate::bus::ButtonState;

verus! {

/// How much the window enlarges the frame.
#[derive(Clone, Copy, Debug, PartialEq, Eq, Structural)]
pub enum Scale {
    X1,
    X2,
    X4,
    FitScreen,
}

/// The scale that a word names: "1", "2" and "4" name themselves, and
/// anything else asks to fit the screen.
pub open spec fn scale_named(word: Seq<char>) -> Scale {
    if word == seq!['1'] {
        Scale::X1
    } else if word == seq!['2'] {
        Scale::X2
    } else if word == seq!['4'] {
        Scale::X4
    } else {
        Scale::FitScreen
    }
}

/// Matches a word to the scale it names.
pub fn get_scale(s: &str) -> (scale: Scale)
    ensures
        scale == scale_named(s@),
{
    if s.unicode_len() != 1 {
        assert(s@.len() != seq!['1'].len());
        assert(s@.len() != seq!['2'].len());
        assert(s@.len() != seq!['4'].len());
        return Scale::FitScreen;
    }
    let c: char = s.get_char(0);
    assert(s@ =~= seq![c]);
    if c == '1' {
        Scale::X1
    } else if c == '2' {
        assert(seq!['1'][0] != seq!['2'][0]);
        Scale::X2
    } else if c == '4' {
        assert(seq!['1'][0] != seq!['4'][0]);
        assert(seq!['2'][0] != seq!['4'][0]);
        Scale::X4
    } else {
        assert(seq!['1'][0] != c);
        assert(seq!['2'][0] != c);
        assert(seq!['4'][0] != c);
        Scale::FitScreen
    }
}

impl ButtonState {
    /// The buttons as the host's keys hold them.
    pub fn from_keys(
        a: bool,
        b: bool,
        select: bool,
        start: bool,
        up: bool,
        down: bool,
        left: bool,
        right: bool,
    ) -> (buttons: ButtonState)
        ensures
            buttons == (ButtonState { a, b, select, start, up, down, left, right }),
    {
        ButtonState { a, b, select, start, up, down, left, right }
    }
}

} // verus!
