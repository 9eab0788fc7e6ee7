//! Top-level screen state machine: the app is always on exactly one of two
//! screens — the Library carousel (home) or the Viewer (page spread).
//!
//! `NavState` keeps the current `Screen` private and is mutated only via the
//! intent-named transitions `to_library` / `to_viewer`. The app boots to
//! `Library`. `screen_to_index` / `index_to_screen` map the enum to and from the
//! window's integer `screen` property (0 = Library, 1 = Viewer).
use vstd::prelude::*;

verus! {

/// One of the two top-level screens.
#[derive(Clone, Copy, PartialEq, Eq, Debug, Structural)]
pub enum Screen {
    /// The cover-flow library carousel (home screen, including when empty).
    Library,
    /// The manga page viewer.
    Viewer,
}

/// Owns the current screen. The app boots to `Library`.
pub struct NavState {
    screen: Screen,
}

impl NavState {
    /// The screen this state currently shows.
    pub closed spec fn current(&self) -> Screen {
        self.screen
    }

    /// Construct the initial state: the app boots to the Library carousel.
    pub fn new() -> (nav: Self)
        ensures
            nav.current() == Screen::Library,
    {
        NavState { screen: Screen::Library }
    }

    /// The current screen.
    pub fn screen(&self) -> (s: Screen)
        ensures
            s == self.current(),
    {
        self.screen
    }

    /// Switch to the Library carousel (e.g. Up arrow from the Viewer).
    pub fn to_library(&mut self)
        ensures
            final(self).current() == Screen::Library,
    {
        self.screen = Screen::Library;
    }

    /// Switch to the Viewer (e.g. Return on a focused book).
    pub fn to_viewer(&mut self)
        ensures
            final(self).current() == Screen::Viewer,
    {
        self.screen = Screen::Viewer;
    }
}

impl Default for NavState {
    fn default() -> (nav: Self)
        ensures
            nav.current() == Screen::Library,
    {
        Self::new()
    }
}

/// The window's integer for a screen: Library = 0, Viewer = 1.
pub open spec fn screen_index_spec(s: Screen) -> i32 {
    match s {
        Screen::Library => 0,
        Screen::Viewer => 1,
    }
}

/// Map a `Screen` to the window's integer `screen` property.
pub fn screen_to_index(s: Screen) -> (i: i32)
    ensures
        i == screen_index_spec(s),
{
    match s {
        Screen::Library => 0,
        Screen::Viewer => 1,
    }
}

/// Map a raw `screen` integer back to a `Screen`; every value other than 1
/// falls back to the first variant, `Library`.
pub fn index_to_screen(i: i32) -> (s: Screen)
    ensures
        s == (if i == 1 { Screen::Viewer } else { Screen::Library }),
{
    match i {
        1 => Screen::Viewer,
        _ => Screen::Library,
    }
}

/// Mapping a screen to its index and back gives the same screen.
pub proof fn lemma_screen_index_round_trip(s: Screen)
    ensures
        (if screen_index_spec(s) == 1 { Screen::Viewer } else { Screen::Library }) == s,
        0 <= screen_index_spec(s) <= 1,
{
}

} // verus!
