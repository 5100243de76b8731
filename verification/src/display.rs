//! What the window shows, and when it has to be painted again.
//!
//! The program that owns the window calls [`DisplayLoop::tick`] whenever it
//! is woken, with the reading of a clock that never runs backwards and with
//! the day it is. The answer holds what to paint, whether to paint at once,
//! and how long to sleep at most before the next call.

use crate::calendar::{Date, Ymd};
use crate::countdown::{days_until, days_until_target, target_of};
use crate::headline::{caption, caption_text, headline, headline_text};
use vstd::prelude::*;

verus! {

/// The time after which the window is due to be painted afresh: a minute, in
/// nanoseconds.
pub const REFRESH_INTERVAL_NANOS: u128 = 60_000_000_000;

/// The longest the program may sleep between two ticks: a second, in
/// nanoseconds.
pub const WAKE_INTERVAL_NANOS: u64 = 1_000_000_000;

/// The two arrangements of the window.
#[derive(Clone, Copy, Debug, PartialEq, Eq, Structural)]
pub enum Layout {
    /// The target day itself.
    TargetDay,
    /// Any other day: the days that are left.
    Countdown,
}

/// A colour by its red, green and blue parts.
#[derive(Clone, Copy, Debug, PartialEq, Eq, Structural)]
pub struct Rgb {
    pub red: u8,
    pub green: u8,
    pub blue: u8,
}

/// What the window shows: a filled background and two lines of text, each
/// in a colour of its own.
#[derive(Debug, PartialEq, Eq)]
pub struct Frame {
    /// The number of days that are left.
    pub days: i64,
    /// The arrangement.
    pub layout: Layout,
    /// The large line.
    pub headline: String,
    /// The small line under it.
    pub caption: String,
    /// The colour that fills the window.
    pub background: Rgb,
    /// The colour of the large line.
    pub headline_color: Rgb,
    /// The colour of the small line.
    pub caption_color: Rgb,
}

/// A [`Frame`] with its texts as sequences of characters.
pub struct FrameView {
    pub days: int,
    pub layout: Layout,
    pub headline: Seq<char>,
    pub caption: Seq<char>,
    pub background: Rgb,
    pub headline_color: Rgb,
    pub caption_color: Rgb,
}

impl View for Frame {
    type V = FrameView;

    open spec fn view(&self) -> FrameView {
        FrameView {
            days: self.days as int,
            layout: self.layout,
            headline: self.headline@,
            caption: self.caption@,
            background: self.background,
            headline_color: self.headline_color,
            caption_color: self.caption_color,
        }
    }
}

/// The arrangement for a number of days that are left.
pub open spec fn layout_for(days: int) -> Layout {
    if days == 0 {
        Layout::TargetDay
    } else {
        Layout::Countdown
    }
}

/// The colour that fills the window: a dark violet.
pub open spec fn background_color() -> Rgb {
    Rgb { red: 26, green: 0, blue: 51 }
}

/// The colour of the large line: orange.
pub open spec fn headline_color() -> Rgb {
    Rgb { red: 255, green: 102, blue: 0 }
}

/// The colour of the small line: green.
pub open spec fn caption_color() -> Rgb {
    Rgb { red: 0, green: 255, blue: 0 }
}

/// The frame for a number of days that are left.
pub open spec fn frame_for(days: int) -> FrameView {
    FrameView {
        days,
        layout: layout_for(days),
        headline: headline(days),
        caption: caption(days),
        background: background_color(),
        headline_color: headline_color(),
        caption_color: caption_color(),
    }
}

/// The time that has passed from the clock reading `last` to the reading
/// `now`; none if `now` is the earlier one.
pub open spec fn elapsed_nanos(last: int, now: int) -> int {
    if now > last {
        now - last
    } else {
        0
    }
}

/// Whether at `now` a refresh is due, the last one having been at `last`.
pub open spec fn refresh_due(last: int, now: int) -> bool {
    elapsed_nanos(last, now) >= REFRESH_INTERVAL_NANOS
}

/// The time of the last refresh after a tick at `now`.
pub open spec fn refreshed_after(last: int, now: int) -> int {
    if refresh_due(last, now) {
        now
    } else {
        last
    }
}

/// The frame for a number of days that are left.
pub fn render(days: i64) -> (frame: Frame)
    ensures
        frame@ == frame_for(days as int),
{
    let layout = if days == 0 {
        Layout::TargetDay
    } else {
        Layout::Countdown
    };
    Frame {
        days,
        layout,
        headline: headline_text(days),
        caption: caption_text(days),
        background: Rgb { red: 26, green: 0, blue: 51 },
        headline_color: Rgb { red: 255, green: 102, blue: 0 },
        caption_color: Rgb { red: 0, green: 255, blue: 0 },
    }
}

/// What one tick asks of the program that owns the window.
#[derive(Debug, PartialEq, Eq)]
pub struct Tick {
    /// What to paint.
    pub frame: Frame,
    /// Whether to ask for a repaint at once.
    pub repaint_now: bool,
    /// The longest time to sleep before the next tick, in nanoseconds.
    pub wake_after_nanos: u64,
}

/// The state of the window between two ticks: the clock reading of the last
/// refresh, in nanoseconds.
#[derive(Debug)]
pub struct DisplayLoop {
    last_refresh: u128,
}

impl View for DisplayLoop {
    type V = int;

    closed spec fn view(&self) -> int {
        self.last_refresh as int
    }
}

impl DisplayLoop {
    /// A loop that starts at the clock reading `now`.
    pub fn new(now: u128) -> (state: DisplayLoop)
        ensures
            state@ == now,
    {
        DisplayLoop { last_refresh: now }
    }

    /// The clock reading of the last refresh.
    pub fn last_refresh(&self) -> (at: u128)
        ensures
            at == self@,
    {
        self.last_refresh
    }

    /// One tick at the clock reading `now`, on the day `today`. A refresh
    /// is due once a minute has passed since the last one: the tick then
    /// notes `now` as the time of the last refresh and asks for a repaint at
    /// once. The frame is made for `today` on every tick, and the program is
    /// told to come back within a second.
    pub fn tick(&mut self, now: u128, today: Date) -> (tick: Tick)
        requires
            target_of(today@).in_range(),
        ensures
            final(self)@ == refreshed_after(old(self)@, now as int),
            tick.repaint_now == refresh_due(old(self)@, now as int),
            tick.wake_after_nanos == WAKE_INTERVAL_NANOS,
            tick.frame@ == frame_for(days_until(today@)),
    {
        let due = now > self.last_refresh && now - self.last_refresh >= REFRESH_INTERVAL_NANOS;
        if due {
            self.last_refresh = now;
        }
        let days = days_until_target(today);
        Tick { frame: render(days), repaint_now: due, wake_after_nanos: WAKE_INTERVAL_NANOS }
    }
}

/// While less than a minute has passed since the last refresh, a tick leaves
/// the time of the last refresh as it is and asks for no repaint; and while
/// the number of days that are left is the one of the tick before, the frame
/// is the one of the tick before.
pub proof fn lemma_steady_between_refreshes(last: int, now: int, before: Ymd, today: Ymd)
    requires
        elapsed_nanos(last, now) < REFRESH_INTERVAL_NANOS,
        days_until(before) == days_until(today),
    ensures
        refreshed_after(last, now) == last,
        !refresh_due(last, now),
        frame_for(days_until(today)) == frame_for(days_until(before)),
{
}

/// Two refreshes lie at least a minute apart: after a tick at `now`, no tick
/// that comes less than a minute later finds a refresh due.
pub proof fn lemma_refreshes_a_minute_apart(last: int, now: int, later: int)
    requires
        later - now < REFRESH_INTERVAL_NANOS,
        refresh_due(last, now),
    ensures
        !refresh_due(refreshed_after(last, now), later),
{
}

} // verus!
