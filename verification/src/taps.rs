//! Telling a tap of an arrow key from a hold of one.
//!
//! A tap is one step of the head; a hold drives it. Which of the two a press
//! turns out to be can only be known by waiting, so a drive starts a fraction
//! of a second after the key goes down.

use vstd::prelude::*;

use crate::clock::{elapsed, time_since, MILLISECOND};
use crate::keys::Key;
use crate::pan_tilt::PanTiltDirection;

verus! {

/// How long an arrow key has to be down before it is driving rather than
/// stepping.
pub const HOLD: u64 = 200 * MILLISECOND;

/// How many arrow keys there are.
pub const ARROWS: usize = 4;

/// The arrow keys, in the order they are looked at.
pub open spec fn arrow_key(index: int) -> Key {
    if index == 0 {
        Key::ArrowUp
    } else if index == 1 {
        Key::ArrowDown
    } else if index == 2 {
        Key::ArrowLeft
    } else {
        Key::ArrowRight
    }
}

/// The way each arrow key points.
pub open spec fn arrow_way(index: int) -> PanTiltDirection {
    if index == 0 {
        PanTiltDirection::Up
    } else if index == 1 {
        PanTiltDirection::Down
    } else if index == 2 {
        PanTiltDirection::Left
    } else {
        PanTiltDirection::Right
    }
}

/// The arrow keys, and enough memory of them to tell a tap from a hold.
#[derive(Debug, Clone, Copy)]
pub struct Arrows {
    /// When each arrow key went down.
    pub since: [Option<u64>; ARROWS],
    /// Which of them have been down long enough to be driving.
    pub driving: [bool; ARROWS],
    /// How long that is.
    pub hold: u64,
}

/// Whether an arrow that went down at `since` and is now up was tapped rather
/// than held.
pub open spec fn was_tapped(since: Option<u64>, down: bool, hold: u64, now: u64) -> bool {
    !down && since is Some && elapsed(since->Some_0, now) < hold
}

/// When an arrow that went down at `since` is taken to have gone down.
pub open spec fn down_since(since: Option<u64>, down: bool, now: u64) -> Option<u64> {
    if !down {
        None
    } else if since is Some {
        since
    } else {
        Some(now)
    }
}

/// Whether an arrow that is down has been down long enough to be driving.
pub open spec fn is_driving(since: Option<u64>, down: bool, hold: u64, now: u64) -> bool {
    down && elapsed(down_since(since, down, now)->Some_0, now) >= hold
}

fn tapped(since: Option<u64>, down: bool, hold: u64, now: u64) -> (tapped: bool)
    ensures
        tapped == was_tapped(since, down, hold, now),
{
    match since {
        Some(at) => !down && time_since(at, now) < hold,
        None => false,
    }
}

fn went_down(since: Option<u64>, down: bool, now: u64) -> (at: Option<u64>)
    ensures
        at == down_since(since, down, now),
{
    if !down {
        None
    } else if since.is_some() {
        since
    } else {
        Some(now)
    }
}

fn drives(since: Option<u64>, down: bool, hold: u64, now: u64) -> (driving: bool)
    ensures
        driving == is_driving(since, down, hold, now),
{
    match went_down(since, down, now) {
        Some(at) => time_since(at, now) >= hold,
        None => false,
    }
}

/// The steps of the first `count` arrows, given which of them are down.
pub open spec fn steps_of(arrows: Arrows, down: Seq<bool>, now: u64, count: nat) -> Seq<
    PanTiltDirection,
>
    decreases count,
{
    if count == 0 {
        Seq::empty()
    } else {
        let index = count - 1;
        let before = steps_of(arrows, down, now, index as nat);
        if was_tapped(arrows.since@[index], down[index], arrows.hold, now) {
            before.push(arrow_way(index))
        } else {
            before
        }
    }
}

/// Whether `after` is what arrows become that are seen down or up as `down`
/// answers, `pressed` being those answers, and `steps` the steps they take.
pub open spec fn watches<D: Fn(Key) -> bool>(
    before: Arrows,
    after: Arrows,
    down: D,
    pressed: Seq<bool>,
    now: u64,
    steps: Seq<PanTiltDirection>,
) -> bool {
    &&& pressed.len() == ARROWS
    &&& forall|index: int|
        0 <= index < ARROWS ==> call_ensures(
            down,
            (#[trigger] arrow_key(index),),
            pressed[index],
        )
    &&& steps == steps_of(before, pressed, now, ARROWS as nat)
    &&& forall|index: int|
        0 <= index < ARROWS ==> {
            &&& (#[trigger] after.since@[index]) == down_since(
                before.since@[index],
                pressed[index],
                now,
            )
            &&& after.driving@[index] == is_driving(
                before.since@[index],
                pressed[index],
                before.hold,
                now,
            )
        }
}

impl Arrows {
    /// Whether only an arrow that is down can be driving.
    pub open spec fn valid(self) -> bool {
        forall|index: int|
            0 <= index < ARROWS && (#[trigger] self.since@[index]) is None
                ==> !self.driving@[index]
    }

    /// Whether no arrow is down.
    pub open spec fn all_up(self) -> bool {
        forall|index: int|
            0 <= index < ARROWS ==> (#[trigger] self.since@[index]) is None
                && !self.driving@[index]
    }

    /// Arrows that start driving after `hold`. A zero `hold` is a keyboard
    /// with no taps in it at all.
    pub fn new(hold: u64) -> (arrows: Arrows)
        ensures
            arrows.hold == hold,
            arrows.all_up(),
            arrows.valid(),
    {
        Arrows { since: [None; ARROWS], driving: [false; ARROWS], hold }
    }

    /// Whether `key` is one of the arrows this is watching.
    pub fn owns(key: Key) -> (owned: bool)
        ensures
            owned == exists|index: int| 0 <= index < ARROWS && #[trigger] arrow_key(index) == key,
    {
        match key {
            Key::ArrowUp => {
                assert(arrow_key(0) == key);
                true
            },
            Key::ArrowDown => {
                assert(arrow_key(1) == key);
                true
            },
            Key::ArrowLeft => {
                assert(arrow_key(2) == key);
                true
            },
            Key::ArrowRight => {
                assert(arrow_key(3) == key);
                true
            },
            _ => false,
        }
    }

    /// Takes which keys are down at `now` and reports the steps to take: one
    /// for each arrow let go of before it became a hold.
    ///
    /// Two arrows tapped together come back as two steps, which land in the
    /// same place as a diagonal would.
    pub fn update<D>(&mut self, down: D, now: u64) -> (steps: Vec<PanTiltDirection>)
        where D: Fn(Key) -> bool,

        requires
            old(self).valid(),
            forall|key: Key| #[trigger] call_requires(down, (key,)),
        ensures
            final(self).valid(),
            final(self).hold == old(self).hold,
            exists|pressed: Seq<bool>|
                {
                    &&& pressed.len() == ARROWS
                    &&& forall|index: int|
                        0 <= index < ARROWS ==> call_ensures(
                            down,
                            (arrow_key(index),),
                            #[trigger] pressed[index],
                        )
                    &&& steps@ == #[trigger] steps_of(*old(self), pressed, now, ARROWS as nat)
                    &&& forall|index: int|
                        0 <= index < ARROWS ==> {
                            &&& (#[trigger] final(self).since@[index]) == down_since(
                                old(self).since@[index],
                                pressed[index],
                                now,
                            )
                            &&& final(self).driving@[index] == is_driving(
                                old(self).since@[index],
                                pressed[index],
                                old(self).hold,
                                now,
                            )
                        }
                },
            exists|pressed: Seq<bool>| #[trigger]
                watches(*old(self), *final(self), down, pressed, now, steps@),
    {
        let up = down(Key::ArrowUp);
        let below = down(Key::ArrowDown);
        let left = down(Key::ArrowLeft);
        let right = down(Key::ArrowRight);
        let ghost pressed = seq![up, below, left, right];
        let hold = self.hold;
        let mut steps: Vec<PanTiltDirection> = Vec::new();
        if tapped(self.since[0], up, hold, now) {
            steps.push(PanTiltDirection::Up);
        }
        if tapped(self.since[1], below, hold, now) {
            steps.push(PanTiltDirection::Down);
        }
        if tapped(self.since[2], left, hold, now) {
            steps.push(PanTiltDirection::Left);
        }
        if tapped(self.since[3], right, hold, now) {
            steps.push(PanTiltDirection::Right);
        }
        proof {
            reveal_with_fuel(steps_of, 5);
            assert(steps@ =~= steps_of(*old(self), pressed, now, ARROWS as nat));
        }
        self.driving = [
            drives(self.since[0], up, hold, now),
            drives(self.since[1], below, hold, now),
            drives(self.since[2], left, hold, now),
            drives(self.since[3], right, hold, now),
        ];
        self.since = [
            went_down(self.since[0], up, now),
            went_down(self.since[1], below, now),
            went_down(self.since[2], left, now),
            went_down(self.since[3], right, now),
        ];
        proof {
            assert(watches(*old(self), *self, down, pressed, now, steps@));
        }
        steps
    }

    /// Whether `key` is being held rather than still deciding what it is.
    pub fn driving(&self, key: Key) -> (driving: bool)
        ensures
            driving == exists|index: int|
                0 <= index < ARROWS && arrow_key(index) == key && #[trigger] self.driving@[index],
    {
        match key {
            Key::ArrowUp => self.driving[0],
            Key::ArrowDown => self.driving[1],
            Key::ArrowLeft => self.driving[2],
            Key::ArrowRight => self.driving[3],
            _ => false,
        }
    }

    /// Forgets every key that is down, without stepping for any of them: for
    /// when the keyboard stops belonging to the camera mid-press.
    pub fn forget(&mut self)
        ensures
            final(self).hold == old(self).hold,
            final(self).all_up(),
            final(self).valid(),
    {
        *self = Arrows::new(self.hold);
    }
}

impl Default for Arrows {
    fn default() -> (arrows: Arrows)
        ensures
            arrows.hold == HOLD,
            arrows.all_up(),
            arrows.valid(),
    {
        Arrows::new(HOLD)
    }
}

/// A press is a tap or a hold and never both: an arrow that was driving does
/// not step when it comes up, and one that steps was never driving, as long
/// as time does not run backwards.
pub proof fn a_press_is_a_tap_or_a_hold(since: Option<u64>, hold: u64, earlier: u64, now: u64)
    requires
        earlier <= now,
        is_driving(since, true, hold, earlier),
    ensures
        !was_tapped(down_since(since, true, earlier), false, hold, now),
{
}

/// An arrow that was never down takes no step, and neither does one that stays
/// down.
pub proof fn only_a_release_steps(arrows: Arrows, down: Seq<bool>, now: u64, count: nat)
    requires
        count <= ARROWS,
        down.len() == ARROWS,
        forall|index: int|
            0 <= index < ARROWS ==> (#[trigger] arrows.since@[index]) is None || down[index],
    ensures
        steps_of(arrows, down, now, count) == Seq::<PanTiltDirection>::empty(),
    decreases count,
{
    if count > 0 {
        only_a_release_steps(arrows, down, now, (count - 1) as nat);
        assert(arrows.since@[count - 1] is None || down[count - 1]);
    }
}

/// Each arrow steps the way it points.
pub proof fn an_arrow_steps_the_way_it_points(index: int)
    requires
        0 <= index < ARROWS,
    ensures
        arrow_key(index) is ArrowUp <==> arrow_way(index) is Up,
        arrow_key(index) is ArrowDown <==> arrow_way(index) is Down,
        arrow_key(index) is ArrowLeft <==> arrow_way(index) is Left,
        arrow_key(index) is ArrowRight <==> arrow_way(index) is Right,
        arrow_key(index) is ArrowUp || arrow_key(index) is ArrowDown || arrow_key(index)
            is ArrowLeft || arrow_key(index) is ArrowRight,
        forall|other: int|
            0 <= other < ARROWS && #[trigger] arrow_key(other) == arrow_key(index) ==> other
                == index,
{
}

/// An arrow that comes up was tapped exactly when it was down for less than the
/// hold, and one that is down drives exactly when it has been down for at
/// least that. An arrow keeps the moment it went down until it comes up.
pub proof fn a_press_is_measured_from_when_it_went_down(
    since: Option<u64>,
    down: bool,
    hold: u64,
    now: u64,
)
    requires
        since matches Some(at) ==> at <= now,
    ensures
        was_tapped(since, down, hold, now) <==> !down && since is Some && since->Some_0 + hold
            > now,
        is_driving(since, down, hold, now) <==> down && (if since is Some {
            since->Some_0 + hold <= now
        } else {
            hold == 0
        }),
        down_since(since, down, now) is Some <==> down,
        down && since is Some ==> down_since(since, down, now) == since,
        down && since is None ==> down_since(since, down, now) == Some(now),
{
}

/// A step is taken one way exactly when the arrow pointing that way was tapped,
/// and no way twice.
pub proof fn a_tapped_arrow_steps_once(
    arrows: Arrows,
    down: Seq<bool>,
    now: u64,
    count: nat,
    index: int,
)
    requires
        count <= ARROWS,
        0 <= index < ARROWS,
    ensures
        steps_of(arrows, down, now, count).contains(arrow_way(index)) <==> index < count
            && was_tapped(arrows.since@[index], down[index], arrows.hold, now),
        steps_of(arrows, down, now, count).len() <= count,
        forall|first: int, second: int|
            0 <= first < second < steps_of(arrows, down, now, count).len() ==> #[trigger] steps_of(
                arrows,
                down,
                now,
                count,
            )[first] != #[trigger] steps_of(arrows, down, now, count)[second],
    decreases count,
{
    if count > 0 {
        let last = count - 1;
        let before = steps_of(arrows, down, now, last as nat);
        let steps = steps_of(arrows, down, now, count);
        a_tapped_arrow_steps_once(arrows, down, now, last as nat, index);
        a_tapped_arrow_steps_once(arrows, down, now, last as nat, last);
        if was_tapped(arrows.since@[last], down[last], arrows.hold, now) {
            assert(steps == before.push(arrow_way(last)));
            assert(steps[before.len() as int] == arrow_way(last));
            if before.contains(arrow_way(index)) {
                let place = choose|place: int|
                    0 <= place < before.len() && before[place] == arrow_way(index);
                assert(steps[place] == arrow_way(index));
            }
            assert(!before.contains(arrow_way(last)));
            assert forall|first: int, second: int|
                0 <= first < second < steps.len() implies #[trigger] steps[first]
                != #[trigger] steps[second] by {
                assert(steps[first] == before[first]);
                if second < before.len() {
                    assert(steps[second] == before[second]);
                } else {
                    assert(before.contains(before[first]));
                }
            }
            if steps.contains(arrow_way(index)) && index != last {
                let place = choose|place: int|
                    0 <= place < steps.len() && steps[place] == arrow_way(index);
                assert(arrow_way(index) != arrow_way(last));
                assert(before[place] == arrow_way(index));
            }
        }
    }
}

/// The hold is a fifth of a second.
pub proof fn a_hold_takes_a_fifth_of_a_second()
    ensures
        5 * HOLD == 1_000_000_000,
{
}

} // verus!
