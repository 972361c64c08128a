//! Refresh-interval rules: what is stored, what the settings dialog offers.
use vstd::prelude::*;

verus! {

/// Shortest refresh interval, in seconds, that a stored value may hold.
pub const MIN_INTERVAL_SEC: u32 = 60;
/// Longest refresh interval, in seconds, that a stored value may hold.
pub const MAX_INTERVAL_SEC: u32 = 3600;
/// Interval used when nothing valid is stored.
pub const DEFAULT_INTERVAL_SEC: u32 = 300;

/// The interval that a stored registry value stands for.
pub open spec fn spec_interval_from_stored(stored: Option<u32>) -> u32 {
    match stored {
        Some(v) => if MIN_INTERVAL_SEC <= v && v <= MAX_INTERVAL_SEC { v } else { DEFAULT_INTERVAL_SEC },
        None => DEFAULT_INTERVAL_SEC,
    }
}

/// Interprets the stored refresh interval: a value within 60..=3600 seconds is kept,
/// anything else (or nothing stored) falls back to 300 seconds.
pub fn interval_from_stored(stored: Option<u32>) -> (r: u32)
    ensures
        r == spec_interval_from_stored(stored),
{
    match stored {
        Some(v) => if v >= MIN_INTERVAL_SEC && v <= MAX_INTERVAL_SEC { v } else { DEFAULT_INTERVAL_SEC },
        None => DEFAULT_INTERVAL_SEC,
    }
}


/// Number of refresh intervals that the settings dialog offers.
pub const CHOICE_COUNT: usize = 5;

/// Minutes of the `i`-th interval that the settings dialog offers.
pub open spec fn choice_minutes(i: int) -> u32 {
    if i == 0 { 1 } else if i == 1 { 5 } else if i == 2 { 10 } else if i == 3 { 30 } else { 60 }
}

/// Title of the `i`-th interval that the settings dialog offers.
pub open spec fn choice_title(i: int) -> Seq<char> {
    if i == 0 {
        "1 minute"@
    } else if i == 1 {
        "5 minutes"@
    } else if i == 2 {
        "10 minutes"@
    } else if i == 3 {
        "30 minutes"@
    } else {
        "1 hour"@
    }
}

/// Minutes of the `i`-th offered interval.
pub fn choice_minutes_at(i: usize) -> (m: u32)
    requires
        i < CHOICE_COUNT,
    ensures
        m == choice_minutes(i as int),
{
    if i == 0 { 1 } else if i == 1 { 5 } else if i == 2 { 10 } else if i == 3 { 30 } else { 60 }
}

/// Title of the `i`-th offered interval, as the dialog's drop-down list shows it.
pub fn choice_title_at(i: usize) -> (t: &'static str)
    requires
        i < CHOICE_COUNT,
    ensures
        t@ == choice_title(i as int),
{
    if i == 0 {
        "1 minute"
    } else if i == 1 {
        "5 minutes"
    } else if i == 2 {
        "10 minutes"
    } else if i == 3 {
        "30 minutes"
    } else {
        "1 hour"
    }
}

/// The entry of the drop-down list selected when the dialog opens on an interval of
/// `current_sec` seconds: the first offered interval whose minutes equal
/// `current_sec / 60`, if any.
pub open spec fn spec_initial_selection(current_sec: u32) -> Option<usize> {
    let m = current_sec / 60;
    if m == choice_minutes(0) {
        Some(0)
    } else if m == choice_minutes(1) {
        Some(1)
    } else if m == choice_minutes(2) {
        Some(2)
    } else if m == choice_minutes(3) {
        Some(3)
    } else if m == choice_minutes(4) {
        Some(4)
    } else {
        None
    }
}

/// Which entry of the interval list to select when the dialog opens on
/// `current_sec` seconds; `None` leaves the list without a selection.
pub fn initial_selection(current_sec: u32) -> (r: Option<usize>)
    ensures
        r == spec_initial_selection(current_sec),
        r matches Some(i) ==> i < CHOICE_COUNT && choice_minutes(i as int) == current_sec / 60,
{
    let m = current_sec / 60;
    let mut i: usize = 0;
    while i < CHOICE_COUNT
        invariant
            i <= CHOICE_COUNT,
            m == current_sec / 60,
            forall|j: int| 0 <= j < i ==> choice_minutes(j) != m,
        decreases CHOICE_COUNT - i,
    {
        if choice_minutes_at(i) == m {
            return Some(i);
        }
        i = i + 1;
    }
    None
}

/// The interval, in seconds, that the dialog saves for list selection `sel`: the
/// selected entry's minutes times 60, or 300 when nothing valid is selected.
pub open spec fn spec_selected_interval(sel: usize) -> u32 {
    if sel < CHOICE_COUNT {
        (choice_minutes(sel as int) * 60) as u32
    } else {
        DEFAULT_INTERVAL_SEC
    }
}

/// The interval, in seconds, saved for the drop-down selection `sel`.
pub fn selected_interval(sel: usize) -> (r: u32)
    ensures
        r == spec_selected_interval(sel),
{
    if sel < CHOICE_COUNT {
        choice_minutes_at(sel) * 60
    } else {
        DEFAULT_INTERVAL_SEC
    }
}

/// A refresh interval within the bounds that the application keeps.
pub open spec fn valid_interval(sec: u32) -> bool {
    MIN_INTERVAL_SEC <= sec <= MAX_INTERVAL_SEC
}

/// Whatever is stored, the interval read back lies within 60..=3600 seconds.
pub proof fn law_stored_interval_in_range(stored: Option<u32>)
    ensures
        valid_interval(spec_interval_from_stored(stored)),
{
}

/// Every interval the settings dialog can save lies within 60..=3600 seconds, and
/// reading it back from storage gives it unchanged.
pub proof fn law_saved_interval_reads_back(sel: usize)
    ensures
        valid_interval(spec_selected_interval(sel)),
        spec_interval_from_stored(Some(spec_selected_interval(sel))) == spec_selected_interval(sel),
{
}

/// Opening the dialog on an interval that it saved selects the entry it was saved from.
pub proof fn law_dialog_reopens_on_saved_choice(sel: usize)
    requires
        sel < CHOICE_COUNT,
    ensures
        spec_initial_selection(spec_selected_interval(sel)) == Some(sel),
{
}

} // verus!
