//! Enum <-> combo-box index conversions for the settings dialog.
//!
//! `*_to_index` are exhaustive; `index_to_*` map any out-of-range index to the
//! first variant. The orders are:
//!   ReadingDirection: Ltr=0, Rtl=1
//!   SpreadMode:       Single=0, Double=1, Auto=2
//!   CoverMode:        Standalone=0, Paired=1
//!   FitMode:          Whole=0, Width=1, Actual=2
//!   Language:         En=0, Ja=1
use crate::view_modes::{CoverMode, FitMode, Language, ReadingDirection, SpreadMode};
use vstd::prelude::*;

verus! {

pub open spec fn reading_direction_index(d: ReadingDirection) -> i32 {
    match d {
        ReadingDirection::Ltr => 0,
        ReadingDirection::Rtl => 1,
    }
}

pub open spec fn reading_direction_of(i: i32) -> ReadingDirection {
    if i == 1 { ReadingDirection::Rtl } else { ReadingDirection::Ltr }
}

pub open spec fn spread_mode_index(m: SpreadMode) -> i32 {
    match m {
        SpreadMode::Single => 0,
        SpreadMode::Double => 1,
        SpreadMode::Auto => 2,
    }
}

pub open spec fn spread_mode_of(i: i32) -> SpreadMode {
    if i == 1 { SpreadMode::Double } else if i == 2 { SpreadMode::Auto } else { SpreadMode::Single }
}

pub open spec fn cover_mode_index(m: CoverMode) -> i32 {
    match m {
        CoverMode::Standalone => 0,
        CoverMode::Paired => 1,
    }
}

pub open spec fn cover_mode_of(i: i32) -> CoverMode {
    if i == 1 { CoverMode::Paired } else { CoverMode::Standalone }
}

pub open spec fn fit_mode_index(m: FitMode) -> i32 {
    match m {
        FitMode::Whole => 0,
        FitMode::Width => 1,
        FitMode::Actual => 2,
    }
}

pub open spec fn fit_mode_of(i: i32) -> FitMode {
    if i == 1 { FitMode::Width } else if i == 2 { FitMode::Actual } else { FitMode::Whole }
}

pub open spec fn language_index(l: Language) -> i32 {
    match l {
        Language::En => 0,
        Language::Ja => 1,
    }
}

pub open spec fn language_of(i: i32) -> Language {
    if i == 1 { Language::Ja } else { Language::En }
}

pub fn reading_direction_to_index(d: ReadingDirection) -> (i: i32)
    ensures
        i == reading_direction_index(d),
        (i == 0) == (d == ReadingDirection::Ltr),
        (i == 1) == (d == ReadingDirection::Rtl),
{
    match d {
        ReadingDirection::Ltr => 0,
        ReadingDirection::Rtl => 1,
    }
}

pub fn index_to_reading_direction(i: i32) -> (d: ReadingDirection)
    ensures
        d == reading_direction_of(i),
        (d == ReadingDirection::Rtl) == (i == 1),
{
    match i {
        1 => ReadingDirection::Rtl,
        _ => ReadingDirection::Ltr,
    }
}

pub fn spread_mode_to_index(m: SpreadMode) -> (i: i32)
    ensures
        i == spread_mode_index(m),
        (i == 0) == (m == SpreadMode::Single),
        (i == 1) == (m == SpreadMode::Double),
        (i == 2) == (m == SpreadMode::Auto),
{
    match m {
        SpreadMode::Single => 0,
        SpreadMode::Double => 1,
        SpreadMode::Auto => 2,
    }
}

pub fn index_to_spread_mode(i: i32) -> (m: SpreadMode)
    ensures
        m == spread_mode_of(i),
        (m == SpreadMode::Double) == (i == 1),
        (m == SpreadMode::Auto) == (i == 2),
        (m == SpreadMode::Single) == (i != 1 && i != 2),
{
    match i {
        1 => SpreadMode::Double,
        2 => SpreadMode::Auto,
        _ => SpreadMode::Single,
    }
}

pub fn cover_mode_to_index(m: CoverMode) -> (i: i32)
    ensures
        i == cover_mode_index(m),
        (i == 0) == (m == CoverMode::Standalone),
        (i == 1) == (m == CoverMode::Paired),
{
    match m {
        CoverMode::Standalone => 0,
        CoverMode::Paired => 1,
    }
}

pub fn index_to_cover_mode(i: i32) -> (m: CoverMode)
    ensures
        m == cover_mode_of(i),
        (m == CoverMode::Paired) == (i == 1),
{
    match i {
        1 => CoverMode::Paired,
        _ => CoverMode::Standalone,
    }
}

pub fn fit_mode_to_index(m: FitMode) -> (i: i32)
    ensures
        i == fit_mode_index(m),
        (i == 0) == (m == FitMode::Whole),
        (i == 1) == (m == FitMode::Width),
        (i == 2) == (m == FitMode::Actual),
{
    match m {
        FitMode::Whole => 0,
        FitMode::Width => 1,
        FitMode::Actual => 2,
    }
}

pub fn index_to_fit_mode(i: i32) -> (m: FitMode)
    ensures
        m == fit_mode_of(i),
        (m == FitMode::Width) == (i == 1),
        (m == FitMode::Actual) == (i == 2),
        (m == FitMode::Whole) == (i != 1 && i != 2),
{
    match i {
        1 => FitMode::Width,
        2 => FitMode::Actual,
        _ => FitMode::Whole,
    }
}

pub fn language_to_index(l: Language) -> (i: i32)
    ensures
        i == language_index(l),
        (i == 0) == (l == Language::En),
        (i == 1) == (l == Language::Ja),
{
    match l {
        Language::En => 0,
        Language::Ja => 1,
    }
}

pub fn index_to_language(i: i32) -> (l: Language)
    ensures
        l == language_of(i),
        (l == Language::Ja) == (i == 1),
{
    match i {
        1 => Language::Ja,
        _ => Language::En,
    }
}

/// Every mode maps to an index in range and back to itself; every index
/// outside the range maps to the first variant.
pub proof fn lemma_index_round_trips(
    d: ReadingDirection,
    s: SpreadMode,
    c: CoverMode,
    f: FitMode,
    l: Language,
    bad: i32,
)
    ensures
        reading_direction_of(reading_direction_index(d)) == d,
        spread_mode_of(spread_mode_index(s)) == s,
        cover_mode_of(cover_mode_index(c)) == c,
        fit_mode_of(fit_mode_index(f)) == f,
        language_of(language_index(l)) == l,
        (bad < 0 || bad > 2) ==> {
            &&& reading_direction_of(bad) == ReadingDirection::Ltr
            &&& spread_mode_of(bad) == SpreadMode::Single
            &&& cover_mode_of(bad) == CoverMode::Standalone
            &&& fit_mode_of(bad) == FitMode::Whole
            &&& language_of(bad) == Language::En
        },
{
}

/// The combo-box indices follow the dialog's declaration order, for every
/// mode and every index: Spread lists Single, Double, Auto; Fit lists Whole,
/// Width, Actual; Direction lists LTR, RTL; Cover lists Standalone, Paired;
/// Language lists English, Japanese. So the index of a mode names the entry
/// the dialog shows for it, and the entry picked at an index is the mode
/// stored.
pub proof fn lemma_combo_box_order(s: SpreadMode, f: FitMode, d: ReadingDirection, c: CoverMode, l: Language, i: i32)
    ensures
        (spread_mode_index(s) == 0) == (s == SpreadMode::Single),
        (spread_mode_index(s) == 1) == (s == SpreadMode::Double),
        (spread_mode_index(s) == 2) == (s == SpreadMode::Auto),
        (spread_mode_of(i) == SpreadMode::Double) == (i == 1),
        (spread_mode_of(i) == SpreadMode::Auto) == (i == 2),
        (fit_mode_index(f) == 0) == (f == FitMode::Whole),
        (fit_mode_index(f) == 1) == (f == FitMode::Width),
        (fit_mode_index(f) == 2) == (f == FitMode::Actual),
        (fit_mode_of(i) == FitMode::Width) == (i == 1),
        (fit_mode_of(i) == FitMode::Actual) == (i == 2),
        (reading_direction_index(d) == 1) == (d == ReadingDirection::Rtl),
        (reading_direction_of(i) == ReadingDirection::Rtl) == (i == 1),
        (cover_mode_index(c) == 1) == (c == CoverMode::Paired),
        (cover_mode_of(i) == CoverMode::Paired) == (i == 1),
        (language_index(l) == 1) == (l == Language::Ja),
        (language_of(i) == Language::Ja) == (i == 1),
{
}

} // verus!
