//! The reader's view modes as plain values: reading direction, spread layout,
//! cover layout, fit mode, UI language, and the resolved four-axis view a book
//! is shown with.
use vstd::prelude::*;

verus! {

/// Page order: left-to-right, or right-to-left (manga binding).
#[derive(Clone, Copy, PartialEq, Eq, Debug, Structural)]
pub enum ReadingDirection {
    Ltr,
    Rtl,
}

/// How many pages the viewer shows at once.
#[derive(Clone, Copy, PartialEq, Eq, Debug, Structural)]
pub enum SpreadMode {
    Single,
    Double,
    Auto,
}

/// Whether the cover stands alone or is paired in double mode.
#[derive(Clone, Copy, PartialEq, Eq, Debug, Structural)]
pub enum CoverMode {
    Standalone,
    Paired,
}

/// How a page is fitted to the viewport.
#[derive(Clone, Copy, PartialEq, Eq, Debug, Structural)]
pub enum FitMode {
    Whole,
    Width,
    Actual,
}

/// The UI language.
#[derive(Clone, Copy, PartialEq, Eq, Debug, Structural)]
pub enum Language {
    En,
    Ja,
}

/// The four view-mode axes a book is displayed with.
#[derive(Clone, Copy, PartialEq, Eq, Debug, Structural)]
pub struct ResolvedView {
    pub reading_direction: ReadingDirection,
    pub spread_mode: SpreadMode,
    pub cover_mode: CoverMode,
    pub fit_mode: FitMode,
}

} // verus!
