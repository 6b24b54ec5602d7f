//! The polling state machine: what the supervisor does on each observation
//! of the server process and the clock.

use vstd::prelude::*;
use crate::reminder::{ReminderState, Threshold};
use crate::schedule::{LocalInstant, Schedule};

verus! {

/// Seconds between two polls.
pub const POLL_SECONDS: u64 = 1;

/// Seconds left to the players between the steps of the stop sequence.
pub const GRACE_SECONDS: u64 = 5;

/// Where the supervised process stands.
#[derive(Clone, Copy, Debug, PartialEq, Eq, Structural)]
pub enum Phase {
    /// Not launched yet.
    Idle,
    /// Launched and polled.
    Running,
    /// The stop sequence has been handed out.
    Stopping,
    /// The process is gone.
    Exited,
}

/// What a poll decides.
#[derive(Clone, Copy, Debug, PartialEq, Eq, Structural)]
pub enum Action {
    /// The process ended by itself: clean up, announce nothing.
    Finish,
    /// The scheduled moment has come: run the stop sequence.
    Stop,
    /// Announce one warning, then poll again.
    Remind(Threshold),
    /// Nothing to announce: poll again.
    Wait,
    /// The supervisor is not running: nothing is to be done.
    Rest,
}

/// A text announced to the players.
#[derive(Clone, Copy, Debug, PartialEq, Eq, Structural)]
pub enum Notice {
    TimeUp,
    Closing(Threshold),
}

/// A command typed into the server's console.
#[derive(Clone, Copy, Debug, PartialEq, Eq, Structural)]
pub enum ServerCommand {
    SaveAll,
    Stop,
}

/// One step that the caller carries out for the supervisor.
#[derive(Clone, Copy, Debug, PartialEq, Eq, Structural)]
pub enum Effect {
    /// Announce the notice on the server's console.
    Announce(Notice),
    /// Type the command into the server's console.
    Command(ServerCommand),
    /// Sleep for so many seconds.
    Pause(u64),
    /// Wait, however long, until the process has ended.
    AwaitExit,
    /// Remove the launch lock.
    ReleaseLock,
    /// Tell the notification channel that the server is down.
    NotifyShutdown,
}

/// The supervisor of one server process.
#[derive(Clone, Copy, Debug, PartialEq, Eq, Structural)]
pub struct Supervisor {
    pub schedule: Schedule,
    pub reminders: ReminderState,
    pub phase: Phase,
}

impl Notice {
    pub open spec fn text_spec(self) -> Seq<char> {
        match self {
            Notice::TimeUp => "Time's Up!"@,
            Notice::Closing(t) => t.announcement_spec(),
        }
    }

    /// The words of the notice.
    pub fn text(self) -> (r: &'static str)
        ensures
            r@ == self.text_spec(),
    {
        match self {
            Notice::TimeUp => "Time's Up!",
            Notice::Closing(t) => t.announcement(),
        }
    }
}

impl ServerCommand {
    pub open spec fn text_spec(self) -> Seq<char> {
        match self {
            ServerCommand::SaveAll => "save-all"@,
            ServerCommand::Stop => "stop"@,
        }
    }

    /// The command as the server reads it.
    pub fn text(self) -> (r: &'static str)
        ensures
            r@ == self.text_spec(),
    {
        match self {
            ServerCommand::SaveAll => "save-all",
            ServerCommand::Stop => "stop",
        }
    }
}

impl Action {
    /// The steps that carry the action out, in order.
    pub open spec fn effects_spec(self) -> Seq<Effect> {
        match self {
            Action::Finish => seq![Effect::ReleaseLock, Effect::NotifyShutdown],
            Action::Stop => seq![
                Effect::Announce(Notice::TimeUp),
                Effect::Pause(GRACE_SECONDS),
                Effect::Command(ServerCommand::SaveAll),
                Effect::Pause(GRACE_SECONDS),
                Effect::Command(ServerCommand::Stop),
                Effect::AwaitExit,
                Effect::ReleaseLock,
                Effect::NotifyShutdown,
            ],
            Action::Remind(t) => seq![
                Effect::Announce(Notice::Closing(t)),
                Effect::Pause(POLL_SECONDS),
            ],
            Action::Wait => seq![Effect::Pause(POLL_SECONDS)],
            Action::Rest => Seq::<Effect>::empty(),
        }
    }

    /// Whether the polling loop ends with this action.
    pub open spec fn ends_loop_spec(self) -> bool {
        self == Action::Finish || self == Action::Stop || self == Action::Rest
    }

    pub fn ends_loop(self) -> (r: bool)
        ensures
            r == self.ends_loop_spec(),
    {
        match self {
            Action::Finish => true,
            Action::Stop => true,
            Action::Rest => true,
            Action::Remind(_) => false,
            Action::Wait => false,
        }
    }

    /// Lists the steps that carry the action out, in order.
    pub fn effects(self) -> (r: Vec<Effect>)
        ensures
            r@ == self.effects_spec(),
    {
        let mut steps: Vec<Effect> = Vec::new();
        match self {
            Action::Finish => {
                steps.push(Effect::ReleaseLock);
                steps.push(Effect::NotifyShutdown);
            },
            Action::Stop => {
                steps.push(Effect::Announce(Notice::TimeUp));
                steps.push(Effect::Pause(GRACE_SECONDS));
                steps.push(Effect::Command(ServerCommand::SaveAll));
                steps.push(Effect::Pause(GRACE_SECONDS));
                steps.push(Effect::Command(ServerCommand::Stop));
                steps.push(Effect::AwaitExit);
                steps.push(Effect::ReleaseLock);
                steps.push(Effect::NotifyShutdown);
            },
            Action::Remind(t) => {
                steps.push(Effect::Announce(Notice::Closing(t)));
                steps.push(Effect::Pause(POLL_SECONDS));
            },
            Action::Wait => {
                steps.push(Effect::Pause(POLL_SECONDS));
            },
            Action::Rest => {},
        }
        assert(steps@ =~= self.effects_spec());
        steps
    }
}

impl Supervisor {
    pub open spec fn well_formed(self) -> bool {
        self.schedule.well_formed()
    }

    /// A supervisor that has not launched anything and announced nothing.
    pub fn new(schedule: Schedule) -> (r: Supervisor)
        ensures
            r == (Supervisor { schedule, reminders: ReminderState::fresh(), phase: Phase::Idle }),
    {
        Supervisor { schedule, reminders: ReminderState::new(), phase: Phase::Idle }
    }

    /// Records that the process was launched. Has no effect unless idle.
    pub fn launched(&mut self)
        ensures
            final(self).schedule == old(self).schedule,
            final(self).reminders == old(self).reminders,
            final(self).phase == if old(self).phase == Phase::Idle {
                Phase::Running
            } else {
                old(self).phase
            },
    {
        if self.phase == Phase::Idle {
            self.phase = Phase::Running;
        }
    }

    /// Records that the stop sequence has run to its end. Has no effect
    /// unless the stop sequence was handed out.
    pub fn stopped(&mut self)
        ensures
            final(self).schedule == old(self).schedule,
            final(self).reminders == old(self).reminders,
            final(self).phase == if old(self).phase == Phase::Stopping {
                Phase::Exited
            } else {
                old(self).phase
            },
    {
        if self.phase == Phase::Stopping {
            self.phase = Phase::Exited;
        }
    }

    /// The supervisor after one poll, and what that poll decides.
    ///
    /// A process that has ended by itself finishes the run without any
    /// announcement. Otherwise the stop sequence starts once no time remains,
    /// and before that at most one warning is announced per poll.
    pub open spec fn step(self, alive: bool, now: LocalInstant) -> (Supervisor, Action) {
        let remaining = self.schedule.remaining_at(now);
        if self.phase != Phase::Running {
            (self, Action::Rest)
        } else if !alive {
            (Supervisor { phase: Phase::Exited, ..self }, Action::Finish)
        } else if remaining <= 0 {
            (Supervisor { phase: Phase::Stopping, ..self }, Action::Stop)
        } else {
            match self.reminders.due(remaining) {
                Some(t) => (
                    Supervisor { reminders: self.reminders.with_fired(t), ..self },
                    Action::Remind(t),
                ),
                None => (self, Action::Wait),
            }
        }
    }

    /// Takes one observation of the process and the clock and decides what to do.
    pub fn poll(&mut self, alive: bool, now: LocalInstant) -> (action: Action)
        requires
            old(self).well_formed(),
            now.well_formed(),
        ensures
            *final(self) == old(self).step(alive, now).0,
            action == old(self).step(alive, now).1,
            final(self).well_formed(),
    {
        if self.phase != Phase::Running {
            return Action::Rest;
        }
        if !alive {
            self.phase = Phase::Exited;
            return Action::Finish;
        }
        let remaining: i128 = self.schedule.remaining(&now);
        if remaining <= 0 {
            self.phase = Phase::Stopping;
            return Action::Stop;
        }
        match self.reminders.next_due(remaining) {
            Some(t) => {
                self.reminders.mark(t);
                Action::Remind(t)
            },
            None => Action::Wait,
        }
    }

    /// A poll never clears a flag, sets at most the flag of the warning it
    /// announces, and announces a warning only with time left, inside that
    /// warning's window, and only if it had not fired before.
    pub proof fn lemma_poll_flags(self, alive: bool, now: LocalInstant, t: Threshold)
        ensures
            self.reminders.fired(t) ==> self.step(alive, now).0.reminders.fired(t),
            !self.reminders.fired(t) && self.step(alive, now).0.reminders.fired(t)
                ==> self.step(alive, now).1 == Action::Remind(t),
            self.step(alive, now).1 == Action::Remind(t) ==> {
                &&& !self.reminders.fired(t)
                &&& self.step(alive, now).0.reminders == self.reminders.with_fired(t)
                &&& 0 < self.schedule.remaining_at(now) < t.window()
                &&& self.phase == Phase::Running
                &&& self.step(alive, now).0.phase == Phase::Running
            },
    {
        let remaining = self.schedule.remaining_at(now);
        self.reminders.lemma_due_is_eligible(remaining);
    }

    /// Warnings come in descending order: after the warning of `t`, a poll
    /// announces only a strictly tighter one.
    pub proof fn lemma_poll_descends(self, alive: bool, now: LocalInstant, t: Threshold)
        requires
            self.reminders.fired(t),
        ensures
            self.step(alive, now).1 matches Action::Remind(u) ==> u.minutes_spec() < t.minutes_spec(),
    {
        self.reminders.lemma_descending_order(t, self.schedule.remaining_at(now));
    }

    /// While the process runs and time is left, a poll on a clock that has
    /// crossed at most one boundary since the last observation announces the
    /// warning of that boundary, or waits where none was crossed, and the
    /// flags stay those of the windows entered.
    pub proof fn lemma_poll_sweeps(self, previous: int, now: LocalInstant)
        requires
            self.phase == Phase::Running,
            self.reminders.tracks(previous),
            0 < self.schedule.remaining_at(now) <= previous,
            forall|t: Threshold, u: Threshold|
                self.schedule.remaining_at(now) < #[trigger] t.window() <= previous
                    && self.schedule.remaining_at(now) < #[trigger] u.window() <= previous ==> t
                    == u,
        ensures
            self.step(true, now).0.reminders.tracks(self.schedule.remaining_at(now)),
            self.step(true, now).0.phase == Phase::Running,
            match self.step(true, now).1 {
                Action::Remind(t) => self.schedule.remaining_at(now) < t.window() <= previous
                    && !self.reminders.fired(t),
                Action::Wait => forall|t: Threshold|
                    !(self.schedule.remaining_at(now) < #[trigger] t.window() <= previous),
                _ => false,
            },
    {
        self.reminders.lemma_sweep_step(previous, self.schedule.remaining_at(now));
    }

    /// A process found dead ends the run at once: no flag changes, nothing is
    /// announced, and the steps are to release the lock and to send the
    /// shutdown notice, each once.
    pub proof fn lemma_exit_skips_reminders(self, now: LocalInstant)
        requires
            self.phase == Phase::Running,
        ensures
            self.step(false, now).1 == Action::Finish,
            self.step(false, now).0.reminders == self.reminders,
            self.step(false, now).0.phase == Phase::Exited,
            Action::Finish.effects_spec() =~= seq![Effect::ReleaseLock, Effect::NotifyShutdown],
    {
    }

    /// Once a poll has ended the loop, every later poll leaves the supervisor
    /// as it is and asks for nothing: the lock is released and the shutdown
    /// notice sent exactly once.
    pub proof fn lemma_ends_once(self, alive: bool, now: LocalInstant, alive2: bool, later: LocalInstant)
        requires
            self.step(alive, now).1.ends_loop_spec(),
        ensures
            self.step(alive, now).0.step(alive2, later) == (self.step(alive, now).0, Action::Rest),
            Action::Rest.effects_spec().len() == 0,
    {
    }
}

} // verus!
