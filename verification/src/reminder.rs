//! The five one-shot shutdown warnings and the rule that picks the one to
//! announce.

use vstd::prelude::*;

verus! {

/// A remaining-time boundary at which players are warned.
#[derive(Clone, Copy, Debug, PartialEq, Eq, Structural)]
pub enum Threshold {
    OneMinute,
    FiveMinutes,
    FifteenMinutes,
    ThirtyMinutes,
    OneHour,
}

/// Which warnings have been announced so far. A flag, once set, stays set.
#[derive(Clone, Copy, Debug, PartialEq, Eq, Structural)]
pub struct ReminderState {
    pub one_hour: bool,
    pub thirty_minutes: bool,
    pub fifteen_minutes: bool,
    pub five_minutes: bool,
    pub one_minute: bool,
}

pub const NANOS_PER_MINUTE: i128 = 60_000_000_000;

impl Threshold {
    /// The boundary in minutes.
    pub open spec fn minutes_spec(self) -> int {
        match self {
            Threshold::OneMinute => 1,
            Threshold::FiveMinutes => 5,
            Threshold::FifteenMinutes => 15,
            Threshold::ThirtyMinutes => 30,
            Threshold::OneHour => 60,
        }
    }

    /// The boundary in nanoseconds: a warning is due once less than this remains.
    pub open spec fn window(self) -> int {
        self.minutes_spec() * 60_000_000_000
    }

    pub fn minutes(self) -> (r: u32)
        ensures
            r == self.minutes_spec(),
    {
        match self {
            Threshold::OneMinute => 1,
            Threshold::FiveMinutes => 5,
            Threshold::FifteenMinutes => 15,
            Threshold::ThirtyMinutes => 30,
            Threshold::OneHour => 60,
        }
    }

    pub fn window_nanos(self) -> (r: i128)
        ensures
            r == self.window(),
    {
        let minutes: u32 = self.minutes();
        minutes as i128 * NANOS_PER_MINUTE
    }

    /// The text announced to the players when this boundary is crossed.
    pub open spec fn announcement_spec(self) -> Seq<char> {
        match self {
            Threshold::OneMinute => "Server closing in one minute!"@,
            Threshold::FiveMinutes => "Server closing in five minutes!"@,
            Threshold::FifteenMinutes => "Server closing in fifteen minutes."@,
            Threshold::ThirtyMinutes => "Server closing in thirty minutes."@,
            Threshold::OneHour => "Server closing in one hour."@,
        }
    }

    pub fn announcement(self) -> (r: &'static str)
        ensures
            r@ == self.announcement_spec(),
    {
        match self {
            Threshold::OneMinute => "Server closing in one minute!",
            Threshold::FiveMinutes => "Server closing in five minutes!",
            Threshold::FifteenMinutes => "Server closing in fifteen minutes.",
            Threshold::ThirtyMinutes => "Server closing in thirty minutes.",
            Threshold::OneHour => "Server closing in one hour.",
        }
    }
}

impl ReminderState {
    /// No warning has been announced.
    pub open spec fn fresh() -> ReminderState {
        ReminderState {
            one_hour: false,
            thirty_minutes: false,
            fifteen_minutes: false,
            five_minutes: false,
            one_minute: false,
        }
    }

    pub fn new() -> (r: ReminderState)
        ensures
            r == ReminderState::fresh(),
    {
        ReminderState {
            one_hour: false,
            thirty_minutes: false,
            fifteen_minutes: false,
            five_minutes: false,
            one_minute: false,
        }
    }

    /// Whether the warning of `t` has been announced.
    pub open spec fn fired(self, t: Threshold) -> bool {
        match t {
            Threshold::OneMinute => self.one_minute,
            Threshold::FiveMinutes => self.five_minutes,
            Threshold::FifteenMinutes => self.fifteen_minutes,
            Threshold::ThirtyMinutes => self.thirty_minutes,
            Threshold::OneHour => self.one_hour,
        }
    }

    pub fn has_fired(&self, t: Threshold) -> (r: bool)
        ensures
            r == self.fired(t),
    {
        match t {
            Threshold::OneMinute => self.one_minute,
            Threshold::FiveMinutes => self.five_minutes,
            Threshold::FifteenMinutes => self.fifteen_minutes,
            Threshold::ThirtyMinutes => self.thirty_minutes,
            Threshold::OneHour => self.one_hour,
        }
    }

    /// This state with the flag of `t` set and every other flag as it was.
    pub open spec fn with_fired(self, t: Threshold) -> ReminderState {
        match t {
            Threshold::OneMinute => ReminderState { one_minute: true, ..self },
            Threshold::FiveMinutes => ReminderState { five_minutes: true, ..self },
            Threshold::FifteenMinutes => ReminderState { fifteen_minutes: true, ..self },
            Threshold::ThirtyMinutes => ReminderState { thirty_minutes: true, ..self },
            Threshold::OneHour => ReminderState { one_hour: true, ..self },
        }
    }

    pub fn mark(&mut self, t: Threshold)
        ensures
            *final(self) == old(self).with_fired(t),
    {
        match t {
            Threshold::OneMinute => { self.one_minute = true; },
            Threshold::FiveMinutes => { self.five_minutes = true; },
            Threshold::FifteenMinutes => { self.fifteen_minutes = true; },
            Threshold::ThirtyMinutes => { self.thirty_minutes = true; },
            Threshold::OneHour => { self.one_hour = true; },
        }
    }

    /// No warning of `t` or of a tighter boundary has been announced.
    pub open spec fn open_up_to(self, t: Threshold) -> bool {
        forall|u: Threshold| u.minutes_spec() <= t.minutes_spec() ==> !#[trigger] self.fired(u)
    }

    /// The warning of `t` may be announced with `remaining` nanoseconds left:
    /// less than its window remains, and neither it nor a tighter one has been announced.
    pub open spec fn eligible(self, t: Threshold, remaining: int) -> bool {
        remaining < t.window() && self.open_up_to(t)
    }

    /// The warning to announce with `remaining` nanoseconds left: the
    /// tightest boundary that is eligible, if there is one.
    pub open spec fn due(self, remaining: int) -> Option<Threshold> {
        if self.eligible(Threshold::OneMinute, remaining) {
            Some(Threshold::OneMinute)
        } else if self.eligible(Threshold::FiveMinutes, remaining) {
            Some(Threshold::FiveMinutes)
        } else if self.eligible(Threshold::FifteenMinutes, remaining) {
            Some(Threshold::FifteenMinutes)
        } else if self.eligible(Threshold::ThirtyMinutes, remaining) {
            Some(Threshold::ThirtyMinutes)
        } else if self.eligible(Threshold::OneHour, remaining) {
            Some(Threshold::OneHour)
        } else {
            None
        }
    }

    /// Unfolds `open_up_to` into the flags it speaks of.
    pub proof fn lemma_open_up_to(self, t: Threshold)
        ensures
            self.open_up_to(t) <==> match t {
                Threshold::OneMinute => !self.one_minute,
                Threshold::FiveMinutes => !self.one_minute && !self.five_minutes,
                Threshold::FifteenMinutes => !self.one_minute && !self.five_minutes
                    && !self.fifteen_minutes,
                Threshold::ThirtyMinutes => !self.one_minute && !self.five_minutes
                    && !self.fifteen_minutes && !self.thirty_minutes,
                Threshold::OneHour => !self.one_minute && !self.five_minutes
                    && !self.fifteen_minutes && !self.thirty_minutes && !self.one_hour,
            },
    {
        if self.open_up_to(t) {
            assert(Threshold::OneMinute.minutes_spec() == 1);
            assert(Threshold::FiveMinutes.minutes_spec() == 5);
            assert(Threshold::FifteenMinutes.minutes_spec() == 15);
            assert(Threshold::ThirtyMinutes.minutes_spec() == 30);
            assert(Threshold::OneHour.minutes_spec() == 60);
            assert(t.minutes_spec() >= 1 ==> !self.fired(Threshold::OneMinute));
            assert(t.minutes_spec() >= 5 ==> !self.fired(Threshold::FiveMinutes));
            assert(t.minutes_spec() >= 15 ==> !self.fired(Threshold::FifteenMinutes));
            assert(t.minutes_spec() >= 30 ==> !self.fired(Threshold::ThirtyMinutes));
            assert(t.minutes_spec() >= 60 ==> !self.fired(Threshold::OneHour));
        }
    }

    /// A warning is announced only inside its window and only once: whatever
    /// is due has less than its window remaining and has not fired before.
    pub proof fn lemma_due_is_eligible(self, remaining: int)
        ensures
            self.due(remaining) matches Some(t) ==> remaining < t.window() && !self.fired(t)
                && self.open_up_to(t),
    {
    }

    /// Nothing tighter than what is due could have been announced instead:
    /// the due warning is the tightest eligible one, and when nothing is due
    /// nothing is eligible.
    pub proof fn lemma_due_is_tightest(self, remaining: int, u: Threshold)
        requires
            self.eligible(u, remaining),
        ensures
            self.due(remaining) matches Some(t) && t.minutes_spec() <= u.minutes_spec(),
    {
    }

    /// Setting a flag clears none: every warning that had fired has fired afterwards.
    pub proof fn lemma_flags_never_reset(self, t: Threshold, u: Threshold)
        ensures
            self.fired(u) ==> self.with_fired(t).fired(u),
            self.with_fired(t).fired(t),
            u != t ==> self.with_fired(t).fired(u) == self.fired(u),
    {
    }

    /// Warnings come in descending order: once the warning of `t` has fired,
    /// only a strictly tighter one can become due, so a boundary that was
    /// skipped over is never announced later.
    pub proof fn lemma_descending_order(self, t: Threshold, remaining: int)
        requires
            self.fired(t),
        ensures
            self.due(remaining) matches Some(u) ==> u.minutes_spec() < t.minutes_spec(),
    {
    }

    /// While the remaining time lies inside the window of `t` and outside
    /// every tighter window, and nothing up to `t` has fired, `t` is due.
    pub proof fn lemma_due_when_window_entered(self, t: Threshold, remaining: int)
        requires
            self.open_up_to(t),
            remaining < t.window(),
            forall|u: Threshold| u.minutes_spec() < t.minutes_spec() ==> remaining >= #[trigger] u.window(),
        ensures
            self.due(remaining) == Some(t),
    {
        assert(Threshold::OneMinute.window() == 60_000_000_000);
        assert(Threshold::FiveMinutes.window() == 300_000_000_000);
        assert(Threshold::FifteenMinutes.window() == 900_000_000_000);
        assert(Threshold::ThirtyMinutes.window() == 1_800_000_000_000);
        assert(Threshold::OneHour.window() == 3_600_000_000_000);
    }

    /// The flags are exactly those of the windows that `remaining` lies inside.
    pub open spec fn tracks(self, remaining: int) -> bool {
        forall|t: Threshold| #[trigger] self.fired(t) <==> remaining < t.window()
    }

    /// Before the widest window is entered, the fresh flags are those of the
    /// windows entered: none.
    pub proof fn lemma_fresh_tracks(remaining: int)
        requires
            remaining >= Threshold::OneHour.window(),
        ensures
            ReminderState::fresh().tracks(remaining),
    {
        assert forall|t: Threshold| #[trigger]
            ReminderState::fresh().fired(t) <==> remaining < t.window() by {
            assert(t.minutes_spec() <= 60);
        }
    }

    /// One step of a sweeping clock. If the flags are those of the windows
    /// entered at the previous observation, and between that observation and
    /// this one at most one boundary was crossed, then the warning of exactly
    /// that boundary is due now, and with its flag set the flags are again
    /// those of the windows entered; where no boundary was crossed, nothing
    /// is due. So on a clock that never skips a boundary each warning comes
    /// once, in descending order, and none before its boundary is crossed.
    pub proof fn lemma_sweep_step(self, previous: int, remaining: int)
        requires
            self.tracks(previous),
            remaining <= previous,
            forall|t: Threshold, u: Threshold|
                remaining < #[trigger] t.window() <= previous && remaining < #[trigger] u.window()
                    <= previous ==> t == u,
        ensures
            match self.due(remaining) {
                Some(t) => remaining < t.window() <= previous && !self.fired(t)
                    && self.with_fired(t).tracks(remaining),
                None => self.tracks(remaining) && forall|t: Threshold|
                    !(remaining < #[trigger] t.window() <= previous),
            },
    {
        let m1 = Threshold::OneMinute;
        let m5 = Threshold::FiveMinutes;
        let m15 = Threshold::FifteenMinutes;
        let m30 = Threshold::ThirtyMinutes;
        let m60 = Threshold::OneHour;
        assert(m1.window() == 60_000_000_000);
        assert(m5.window() == 300_000_000_000);
        assert(m15.window() == 900_000_000_000);
        assert(m30.window() == 1_800_000_000_000);
        assert(m60.window() == 3_600_000_000_000);
        assert(self.fired(m1) <==> previous < m1.window());
        assert(self.fired(m5) <==> previous < m5.window());
        assert(self.fired(m15) <==> previous < m15.window());
        assert(self.fired(m30) <==> previous < m30.window());
        assert(self.fired(m60) <==> previous < m60.window());
        self.lemma_open_up_to(m1);
        self.lemma_open_up_to(m5);
        self.lemma_open_up_to(m15);
        self.lemma_open_up_to(m30);
        self.lemma_open_up_to(m60);
        assert(remaining < m1.window() <= previous && remaining < m5.window() <= previous ==> m1 == m5);
        assert(remaining < m5.window() <= previous && remaining < m15.window() <= previous ==> m5 == m15);
        assert(remaining < m15.window() <= previous && remaining < m30.window() <= previous ==> m15 == m30);
        assert(remaining < m30.window() <= previous && remaining < m60.window() <= previous ==> m30 == m60);
        match self.due(remaining) {
            Some(t) => {
                let after = self.with_fired(t);
                assert forall|u: Threshold| #[trigger] after.fired(u) <==> remaining < u.window() by {
                    self.lemma_flags_never_reset(t, u);
                }
            },
            None => {
                assert forall|u: Threshold| #[trigger] self.fired(u) <==> remaining < u.window() by {
                }
            },
        }
    }

    /// The flags after `n` observations of a clock that starts with `from`
    /// nanoseconds remaining and loses `tick` nanoseconds between
    /// observations, the due warning being marked at each.
    pub open spec fn after_polls(self, from: int, tick: int, n: nat) -> ReminderState
        decreases n,
    {
        if n == 0 {
            self
        } else {
            let before = self.after_polls(from, tick, (n - 1) as nat);
            match before.due(from - (n - 1) * tick) {
                Some(t) => before.with_fired(t),
                None => before,
            }
        }
    }

    /// A steady sweep announces every warning at its boundary. On a clock
    /// that starts outside every window and ticks no slower than the
    /// narrowest gap between two boundaries, after any number of
    /// observations the flags set are exactly those of the windows that the
    /// last observation lay inside: each flag is set once, when its boundary
    /// is crossed and not before, the widest first.
    pub proof fn lemma_steady_sweep(from: int, tick: int, n: nat)
        requires
            from >= Threshold::OneHour.window(),
            0 <= tick <= Threshold::FiveMinutes.window() - Threshold::OneMinute.window(),
            n >= 1,
        ensures
            ReminderState::fresh().after_polls(from, tick, n).tracks(from - (n - 1) * tick),
        decreases n,
    {
        let fresh = ReminderState::fresh();
        let remaining = from - (n - 1) * tick;
        let before = fresh.after_polls(from, tick, (n - 1) as nat);
        if n == 1 {
            Self::lemma_fresh_tracks(from);
            assert(remaining == from) by (nonlinear_arith)
                requires
                    remaining == from - (n - 1) * tick,
                    n == 1,
            ;
            fresh.lemma_sweep_step(from, from);
        } else {
            Self::lemma_steady_sweep(from, tick, (n - 1) as nat);
            let previous = from - (n - 2) * tick;
            assert(remaining == previous - tick) by (nonlinear_arith)
                requires
                    remaining == from - (n - 1) * tick,
                    previous == from - (n - 2) * tick,
            ;
            assert forall|t: Threshold, u: Threshold|
                remaining < #[trigger] t.window() <= previous && remaining < #[trigger] u.window()
                    <= previous implies t == u by {
                assert(t.minutes_spec() == u.minutes_spec());
            }
            before.lemma_sweep_step(previous, remaining);
        }
    }

    /// Picks the warning to announce with `remaining` nanoseconds left.
    pub fn next_due(&self, remaining: i128) -> (r: Option<Threshold>)
        ensures
            r == self.due(remaining as int),
            r matches Some(t) ==> self.eligible(t, remaining as int),
    {
        proof {
            self.lemma_open_up_to(Threshold::OneMinute);
            self.lemma_open_up_to(Threshold::FiveMinutes);
            self.lemma_open_up_to(Threshold::FifteenMinutes);
            self.lemma_open_up_to(Threshold::ThirtyMinutes);
            self.lemma_open_up_to(Threshold::OneHour);
        }
        if !self.one_minute && remaining < Threshold::OneMinute.window_nanos() {
            Some(Threshold::OneMinute)
        } else if !self.one_minute && !self.five_minutes
            && remaining < Threshold::FiveMinutes.window_nanos() {
            Some(Threshold::FiveMinutes)
        } else if !self.one_minute && !self.five_minutes && !self.fifteen_minutes
            && remaining < Threshold::FifteenMinutes.window_nanos() {
            Some(Threshold::FifteenMinutes)
        } else if !self.one_minute && !self.five_minutes && !self.fifteen_minutes
            && !self.thirty_minutes && remaining < Threshold::ThirtyMinutes.window_nanos() {
            Some(Threshold::ThirtyMinutes)
        } else if !self.one_minute && !self.five_minutes && !self.fifteen_minutes
            && !self.thirty_minutes && !self.one_hour
            && remaining < Threshold::OneHour.window_nanos() {
            Some(Threshold::OneHour)
        } else {
            None
        }
    }
}

} // verus!
