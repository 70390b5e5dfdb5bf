//! A rocker: a control that rests at its centre, drives whichever way it is
//! pushed, and drives harder the further it is pushed.

use vstd::prelude::*;

verus! {

/// The coarse speeds that a camera's drives come in.
#[derive(Debug, Clone, Copy, PartialEq, Eq, Structural)]
pub enum SpeedLevel {
    /// As slow as it goes, which on some scales is not moving at all.
    Slowest,
    /// Fine control.
    Slow,
    /// Speed and control balanced.
    Medium,
    /// Quick.
    Fast,
    /// All the camera has.
    Fastest,
}

/// The last notch of a rocker, counted from zero.
pub const LAST_NOTCH: u8 = 3;

/// The speed at each notch of a rocker, slowest first. The slowest level of
/// all is left out: a first notch that may not move anything is worse than
/// one notch fewer.
pub open spec fn notch_level(notch: int) -> SpeedLevel {
    if notch <= 0 {
        SpeedLevel::Slow
    } else if notch == 1 {
        SpeedLevel::Medium
    } else if notch == 2 {
        SpeedLevel::Fast
    } else {
        SpeedLevel::Fastest
    }
}

/// The speed a rocker at this notch asks for, or `None` while it rests. A
/// push past the last notch is no faster than the last.
pub fn speed(notch: Option<u8>) -> (level: Option<SpeedLevel>)
    ensures
        level == (match notch {
            Some(notch) => Some(notch_level(notch as int)),
            None => None,
        }),
        level != Some(SpeedLevel::Slowest),
{
    match notch {
        Some(0) => Some(SpeedLevel::Slow),
        Some(1) => Some(SpeedLevel::Medium),
        Some(2) => Some(SpeedLevel::Fast),
        Some(_) => Some(SpeedLevel::Fastest),
        None => None,
    }
}

/// What one rocker is marked with.
#[derive(Debug, Clone, Copy)]
pub struct Marks<'a> {
    /// What this rocker drives, in a word.
    pub label: &'a str,
    /// The marks at the left and right ends of the travel, in that order.
    pub ends: (&'a str, &'a str),
    /// What each end does, spelled out for whoever hasn't met the marks.
    pub tooltips: (&'a str, &'a str),
}

/// The marks of the zoom rocker: wide at the left, telephoto at the right.
pub fn zoom_marks() -> (marks: Marks<'static>)
    ensures
        marks.label@ == "Zoom"@,
        marks.ends.0@ == "W"@,
        marks.ends.1@ == "T"@,
        marks.tooltips.0@ == "Wide \u{2014} push further to widen faster"@,
        marks.tooltips.1@ == "Telephoto \u{2014} push further to tighten faster"@,
{
    Marks {
        label: "Zoom",
        ends: ("W", "T"),
        tooltips: (
            "Wide \u{2014} push further to widen faster",
            "Telephoto \u{2014} push further to tighten faster",
        ),
    }
}

/// The marks of the focus rocker, as printed on a lens barrel: the macro
/// flower at the near end and the infinity sign at the far one.
pub fn focus_marks() -> (marks: Marks<'static>)
    ensures
        marks.label@ == "Focus"@,
        marks.ends.0@ == "\u{273F}"@,
        marks.ends.1@ == "\u{221E}"@,
        marks.tooltips.0@ == "Near \u{2014} push further to focus closer faster"@,
        marks.tooltips.1@ == "Far \u{2014} push further to focus further off faster"@,
{
    Marks {
        label: "Focus",
        ends: ("\u{273F}", "\u{221E}"),
        tooltips: (
            "Near \u{2014} push further to focus closer faster",
            "Far \u{2014} push further to focus further off faster",
        ),
    }
}

/// How fast a level is, counted from the slowest.
pub open spec fn rank(level: SpeedLevel) -> int {
    match level {
        SpeedLevel::Slowest => 0,
        SpeedLevel::Slow => 1,
        SpeedLevel::Medium => 2,
        SpeedLevel::Fast => 3,
        SpeedLevel::Fastest => 4,
    }
}

/// Each notch of a rocker is one level faster than the notch before it: the
/// first is one above the slowest, the last is as fast as there is, and
/// pushing past either end changes nothing.
pub proof fn each_notch_is_one_level_faster(notch: int)
    ensures
        notch <= 0 ==> rank(notch_level(notch)) == 1,
        0 <= notch <= LAST_NOTCH ==> rank(notch_level(notch)) == notch + 1,
        notch >= LAST_NOTCH ==> rank(notch_level(notch)) == 4,
{
}

} // verus!
