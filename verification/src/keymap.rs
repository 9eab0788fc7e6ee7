//! Maps the window's key tokens to viewer commands.
//!
//! Arrow keys follow the reading direction (LTR: right = next, left = previous;
//! RTL: the reverse). Space and Backspace are next / previous in reading order
//! whatever the direction. `d`, `r`, `c`, `t` toggle spread, direction, cover
//! and thumbnails; `+`/`=`, `-`, `0`, `1`, `f` zoom, reset, show actual size and
//! cycle the fit; `up` returns to the Library.
use crate::view_modes::ReadingDirection;
use vstd::prelude::*;

verus! {

/// A page-turn direction in reading order.
#[derive(Clone, Copy, PartialEq, Eq, Debug, Structural)]
pub enum NavAction {
    Next,
    Prev,
}

/// A decoded viewer command.
#[derive(Clone, Copy, PartialEq, Eq, Debug, Structural)]
pub enum KeyCommand {
    Turn(NavAction),
    ToggleSpread,
    ToggleReadingDirection,
    ToggleCover,
    ToggleThumbnails,
    ZoomIn,
    ZoomOut,
    ResetView,
    FitActual,
    CycleFit,
    GoToLibrary,
}

/// The command a key token stands for under a reading direction.
pub open spec fn key_command_spec(token: Seq<char>, dir: ReadingDirection) -> Option<KeyCommand> {
    if token == seq!['r', 'i', 'g', 'h', 't'] {
        Some(KeyCommand::Turn(if dir == ReadingDirection::Ltr { NavAction::Next } else { NavAction::Prev }))
    } else if token == seq!['l', 'e', 'f', 't'] {
        Some(KeyCommand::Turn(if dir == ReadingDirection::Ltr { NavAction::Prev } else { NavAction::Next }))
    } else if token == seq!['s', 'p', 'a', 'c', 'e'] {
        Some(KeyCommand::Turn(NavAction::Next))
    } else if token == seq!['b', 'a', 'c', 'k', 's', 'p', 'a', 'c', 'e'] {
        Some(KeyCommand::Turn(NavAction::Prev))
    } else if token == seq!['d'] {
        Some(KeyCommand::ToggleSpread)
    } else if token == seq!['r'] {
        Some(KeyCommand::ToggleReadingDirection)
    } else if token == seq!['c'] {
        Some(KeyCommand::ToggleCover)
    } else if token == seq!['t'] {
        Some(KeyCommand::ToggleThumbnails)
    } else if token == seq!['+'] || token == seq!['='] {
        Some(KeyCommand::ZoomIn)
    } else if token == seq!['-'] {
        Some(KeyCommand::ZoomOut)
    } else if token == seq!['0'] {
        Some(KeyCommand::ResetView)
    } else if token == seq!['1'] {
        Some(KeyCommand::FitActual)
    } else if token == seq!['f'] {
        Some(KeyCommand::CycleFit)
    } else if token == seq!['u', 'p'] {
        Some(KeyCommand::GoToLibrary)
    } else {
        None
    }
}

/// Character-wise string equality.
pub fn str_eq(a: &str, b: &str) -> (r: bool)
    ensures
        r == (a@ == b@),
{
    let n = a.unicode_len();
    if n != b.unicode_len() {
        return false;
    }
    let mut i: usize = 0;
    while i < n
        invariant
            n == a@.len(),
            n == b@.len(),
            i <= n,
            forall|k: int| 0 <= k < i ==> a@[k] == b@[k],
        decreases n - i,
    {
        if a.get_char(i) != b.get_char(i) {
            return false;
        }
        i = i + 1;
    }
    assert(a@ =~= b@);
    true
}

/// Map a key token to a command under the reading direction `dir`.
pub fn map_key(token: &str, dir: ReadingDirection) -> (r: Option<KeyCommand>)
    ensures
        r == key_command_spec(token@, dir),
{
    proof {
        reveal_strlit("right");
        reveal_strlit("left");
        reveal_strlit("space");
        reveal_strlit("backspace");
        reveal_strlit("d");
        reveal_strlit("r");
        reveal_strlit("c");
        reveal_strlit("t");
        reveal_strlit("+");
        reveal_strlit("=");
        reveal_strlit("-");
        reveal_strlit("0");
        reveal_strlit("1");
        reveal_strlit("f");
        reveal_strlit("up");
        assert("right"@ =~= seq!['r', 'i', 'g', 'h', 't']);
        assert("left"@ =~= seq!['l', 'e', 'f', 't']);
        assert("space"@ =~= seq!['s', 'p', 'a', 'c', 'e']);
        assert("backspace"@ =~= seq!['b', 'a', 'c', 'k', 's', 'p', 'a', 'c', 'e']);
        assert("d"@ =~= seq!['d']);
        assert("r"@ =~= seq!['r']);
        assert("c"@ =~= seq!['c']);
        assert("t"@ =~= seq!['t']);
        assert("+"@ =~= seq!['+']);
        assert("="@ =~= seq!['=']);
        assert("-"@ =~= seq!['-']);
        assert("0"@ =~= seq!['0']);
        assert("1"@ =~= seq!['1']);
        assert("f"@ =~= seq!['f']);
        assert("up"@ =~= seq!['u', 'p']);
    }
    let forward = match dir {
        ReadingDirection::Ltr => NavAction::Next,
        ReadingDirection::Rtl => NavAction::Prev,
    };
    let backward = match dir {
        ReadingDirection::Ltr => NavAction::Prev,
        ReadingDirection::Rtl => NavAction::Next,
    };
    if str_eq(token, "right") {
        Some(KeyCommand::Turn(forward))
    } else if str_eq(token, "left") {
        Some(KeyCommand::Turn(backward))
    } else if str_eq(token, "space") {
        Some(KeyCommand::Turn(NavAction::Next))
    } else if str_eq(token, "backspace") {
        Some(KeyCommand::Turn(NavAction::Prev))
    } else if str_eq(token, "d") {
        Some(KeyCommand::ToggleSpread)
    } else if str_eq(token, "r") {
        Some(KeyCommand::ToggleReadingDirection)
    } else if str_eq(token, "c") {
        Some(KeyCommand::ToggleCover)
    } else if str_eq(token, "t") {
        Some(KeyCommand::ToggleThumbnails)
    } else if str_eq(token, "+") || str_eq(token, "=") {
        Some(KeyCommand::ZoomIn)
    } else if str_eq(token, "-") {
        Some(KeyCommand::ZoomOut)
    } else if str_eq(token, "0") {
        Some(KeyCommand::ResetView)
    } else if str_eq(token, "1") {
        Some(KeyCommand::FitActual)
    } else if str_eq(token, "f") {
        Some(KeyCommand::CycleFit)
    } else if str_eq(token, "up") {
        Some(KeyCommand::GoToLibrary)
    } else {
        None
    }
}

/// The arrow keys swap meaning with the reading direction, while Space and
/// Backspace keep theirs: a reading-order key means the same under both
/// directions, and every other token is direction-independent.
pub proof fn lemma_arrows_mirror_with_direction(token: Seq<char>)
    ensures
        key_command_spec(seq!['r', 'i', 'g', 'h', 't'], ReadingDirection::Ltr)
            == key_command_spec(seq!['l', 'e', 'f', 't'], ReadingDirection::Rtl),
        key_command_spec(seq!['l', 'e', 'f', 't'], ReadingDirection::Ltr)
            == key_command_spec(seq!['r', 'i', 'g', 'h', 't'], ReadingDirection::Rtl),
        (token != seq!['r', 'i', 'g', 'h', 't'] && token != seq!['l', 'e', 'f', 't'])
            ==> key_command_spec(token, ReadingDirection::Ltr) == key_command_spec(token, ReadingDirection::Rtl),
{
}

} // verus!
