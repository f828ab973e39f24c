//! The theme clock: a light/dark value chosen from the local hour and
//! flipped by a scheduled tick at the start of hour 6 and hour 18.
use vstd::prelude::*;

verus! {

/// The two document themes; each selects one pair of embedded CSS blobs.
#[derive(Clone, Copy, Debug, PartialEq, Eq, Structural)]
pub enum Theme {
    Light,
    Dark,
}

/// The theme that a given local hour calls for: light during the day
/// (hours 6 through 17), dark otherwise.
pub open spec fn theme_for_hour(hour: u32) -> Theme {
    if 6 <= hour && hour < 18 {
        Theme::Light
    } else {
        Theme::Dark
    }
}

/// The opposite theme.
pub open spec fn flipped(t: Theme) -> Theme {
    match t {
        Theme::Light => Theme::Dark,
        Theme::Dark => Theme::Light,
    }
}

/// Initial theme at startup, read once from the local hour.
pub fn initial_theme(hour: u32) -> (t: Theme)
    ensures
        t == theme_for_hour(hour),
{
    if 6 <= hour && hour < 18 {
        Theme::Light
    } else {
        Theme::Dark
    }
}

/// One scheduled tick: toggles the stored theme.
pub fn flip(t: Theme) -> (r: Theme)
    ensures
        r == flipped(t),
        r != t,
{
    match t {
        Theme::Light => Theme::Dark,
        Theme::Dark => Theme::Light,
    }
}

/// After one flip the value is the complement of what the hour gave,
/// and a second flip restores it.
pub proof fn lemma_flip_complements(hour: u32)
    ensures
        flipped(theme_for_hour(hour)) != theme_for_hour(hour),
        flipped(flipped(theme_for_hour(hour))) == theme_for_hour(hour),
{
}

} // verus!
