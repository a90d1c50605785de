//! The publish loop as a state machine.
//!
//! The machine performs nothing itself. At every moment it has one pending
//! [`Action`]; whoever drives it carries that action out and reports the
//! outcome with [`Publisher::step`]. One iteration is sleep, read the clock,
//! send, report, in that order and never overlapped.

use vstd::prelude::*;
use crate::config::PublishConfig;
use crate::pacing::{achieved_microhertz, achieved_of, period_nanos, period_of};

verus! {

/// What the transport does with a message when its outbound path is full.
#[derive(Clone, Copy, Debug, PartialEq, Eq)]
pub enum CongestionPolicy {
    /// Wait until the message can be queued.
    Block,
    /// Discard the message and return.
    Drop,
}

/// How one send ended.
#[derive(Clone, Copy, Debug, PartialEq, Eq)]
pub enum SendOutcome {
    /// The transport took the message.
    Delivered,
    /// The outbound path was saturated and the message was discarded.
    Congested,
    /// Any other transport error.
    Failed,
}

/// Why a run is over.
#[derive(Clone, Copy, Debug, PartialEq, Eq)]
pub enum HaltReason {
    /// The transport could not be opened.
    OpenFailed,
    /// The topic could not be declared.
    DeclareFailed,
    /// A send failed with something other than congestion.
    SendFailed,
    /// The driver asked the run to stop.
    Stopped,
    /// An event arrived that does not answer the pending action.
    OutOfTurn,
}

/// One clock reading and its distance from the previous one, in nanoseconds.
#[derive(Clone, Copy, Debug, PartialEq, Eq)]
pub struct TimingSample {
    /// Nanoseconds since the epoch at which the send was attempted.
    pub timestamp: u64,
    /// Nanoseconds since the previous sample; negative if the clock stepped back.
    pub elapsed: i128,
}

/// What one iteration reports.
#[derive(Clone, Copy, Debug, PartialEq, Eq)]
pub struct Report {
    /// The iteration's timing.
    pub sample: TimingSample,
    /// The rate achieved over `sample.elapsed`, in micro-hertz, where defined.
    pub achieved: Option<u64>,
    /// The configured rate, in messages per second.
    pub configured: usize,
}

/// What the driver is asked to do next.
#[derive(Clone, Copy, Debug, PartialEq, Eq)]
pub enum Action {
    /// Open the transport session.
    Open,
    /// Declare the configured topic on the session.
    DeclareTopic,
    /// Block for this many nanoseconds.
    Sleep { nanos: u64 },
    /// Read the wall clock.
    ReadClock,
    /// Send the payload on the topic under this policy.
    Send { policy: CongestionPolicy },
    /// Print this report.
    Report { report: Report },
    /// End the run.
    Halt { reason: HaltReason },
}

/// What the driver tells the machine.
#[derive(Clone, Copy, Debug, PartialEq, Eq)]
pub enum Event {
    /// The session was opened, or could not be.
    Opened { ok: bool },
    /// The topic was declared, or could not be.
    Declared { ok: bool },
    /// The sleep is over.
    Slept,
    /// The wall clock read `now` nanoseconds since the epoch.
    Clock { now: u64 },
    /// The send returned.
    Sent { outcome: SendOutcome },
    /// The report was printed.
    Reported,
    /// The run is to end.
    StopRequested,
}

/// Where in a run the machine stands.
#[derive(Clone, Copy, Debug, PartialEq, Eq)]
pub enum Phase {
    /// Waiting for the session.
    Opening,
    /// Waiting for the topic.
    Declaring,
    /// Waiting out the period.
    Sleeping,
    /// Waiting for the clock.
    Timing,
    /// Waiting for the send that was stamped `now`.
    Sending { now: u64 },
    /// Waiting for the report to be printed.
    Reporting { report: Report },
    /// Over.
    Halted { reason: HaltReason },
}

/// The report of an iteration stamped `now` whose predecessor was stamped `last`.
pub open spec fn report_of(now: u64, last: u64, rate: usize) -> Report {
    Report {
        sample: TimingSample { timestamp: now, elapsed: (now - last) as i128 },
        achieved: achieved_of(now - last),
        configured: rate,
    }
}

impl HaltReason {
    /// Whether the run ended in error, as every halt but a requested stop does.
    pub fn is_failure(&self) -> (failed: bool)
        ensures
            failed == !(*self is Stopped),
    {
        match self {
            HaltReason::Stopped => false,
            _ => true,
        }
    }
}

/// One publishing run.
#[derive(Clone, Debug)]
pub struct Publisher {
    /// The run's settings.
    pub config: PublishConfig,
    /// The sleep between iterations, in nanoseconds.
    pub period: u64,
    /// The timestamp of the last printed report; zero before the first.
    pub last: u64,
    /// The current phase.
    pub phase: Phase,
}

impl Publisher {
    /// The invariant of a run: a period derived from a usable rate, and a
    /// pending report that is the one its own timestamp calls for.
    pub open spec fn wf(self) -> bool {
        &&& self.config.wf()
        &&& self.period == period_of(self.config.rate as nat)
        &&& self.phase matches Phase::Reporting { report } ==> report == report_of(
            report.sample.timestamp,
            self.last,
            self.config.rate,
        )
    }

    /// The state before anything has happened.
    pub open spec fn initial(config: PublishConfig) -> Publisher {
        Publisher {
            config,
            period: period_of(config.rate as nat) as u64,
            last: 0,
            phase: Phase::Opening,
        }
    }

    /// The action that the current phase waits on.
    pub open spec fn pending(self) -> Action {
        match self.phase {
            Phase::Opening => Action::Open,
            Phase::Declaring => Action::DeclareTopic,
            Phase::Sleeping => Action::Sleep { nanos: self.period },
            Phase::Timing => Action::ReadClock,
            Phase::Sending { now } => Action::Send { policy: CongestionPolicy::Drop },
            Phase::Reporting { report } => Action::Report { report },
            Phase::Halted { reason } => Action::Halt { reason },
        }
    }

    /// The same run in another phase.
    pub open spec fn goto(self, phase: Phase) -> Publisher {
        Publisher { phase, ..self }
    }

    /// The state after `event`.
    ///
    /// A halted run stays as it is. A stop request halts any other. Otherwise
    /// the event must answer the pending action, or the run halts out of turn.
    pub open spec fn next(self, event: Event) -> Publisher {
        match (self.phase, event) {
            (Phase::Halted { reason }, _) => self,
            (_, Event::StopRequested) => self.goto(Phase::Halted { reason: HaltReason::Stopped }),
            (Phase::Opening, Event::Opened { ok }) => if ok {
                self.goto(Phase::Declaring)
            } else {
                self.goto(Phase::Halted { reason: HaltReason::OpenFailed })
            },
            (Phase::Declaring, Event::Declared { ok }) => if ok {
                self.goto(Phase::Sleeping)
            } else {
                self.goto(Phase::Halted { reason: HaltReason::DeclareFailed })
            },
            (Phase::Sleeping, Event::Slept) => self.goto(Phase::Timing),
            (Phase::Timing, Event::Clock { now }) => self.goto(Phase::Sending { now }),
            (Phase::Sending { now }, Event::Sent { outcome }) => if outcome is Failed {
                self.goto(Phase::Halted { reason: HaltReason::SendFailed })
            } else {
                self.goto(
                    Phase::Reporting { report: report_of(now, self.last, self.config.rate) },
                )
            },
            (Phase::Reporting { report }, Event::Reported) => Publisher {
                last: report.sample.timestamp,
                phase: Phase::Sleeping,
                ..self
            },
            _ => self.goto(Phase::Halted { reason: HaltReason::OutOfTurn }),
        }
    }

    /// Starts a run: nothing has been sent, and the session is to be opened.
    pub fn new(config: PublishConfig) -> (made: Publisher)
        requires
            config.wf(),
        ensures
            made == Publisher::initial(config),
            made.wf(),
            made.pending() == Action::Open,
    {
        let period: u64 = period_nanos(config.rate);
        Publisher { config, period, last: 0, phase: Phase::Opening }
    }

    /// The action that the driver is to carry out now.
    pub fn action(&self) -> (todo: Action)
        ensures
            todo == self.pending(),
    {
        match self.phase {
            Phase::Opening => Action::Open,
            Phase::Declaring => Action::DeclareTopic,
            Phase::Sleeping => Action::Sleep { nanos: self.period },
            Phase::Timing => Action::ReadClock,
            Phase::Sending { now: _ } => Action::Send { policy: CongestionPolicy::Drop },
            Phase::Reporting { report } => Action::Report { report },
            Phase::Halted { reason } => Action::Halt { reason },
        }
    }

    /// Whether the run is over.
    pub fn is_halted(&self) -> (over: bool)
        ensures
            over == (self.phase is Halted),
    {
        match self.phase {
            Phase::Halted { reason: _ } => true,
            _ => false,
        }
    }

    /// Takes in `event` and returns the action that is pending after it.
    pub fn step(&mut self, event: Event) -> (todo: Action)
        ensures
            *final(self) == old(self).next(event),
            old(self).wf() ==> final(self).wf(),
            todo == final(self).pending(),
    {
        let phase: Phase = self.phase;
        match (phase, event) {
            (Phase::Halted { reason: _ }, _) => {},
            (_, Event::StopRequested) => {
                self.phase = Phase::Halted { reason: HaltReason::Stopped };
            },
            (Phase::Opening, Event::Opened { ok }) => {
                if ok {
                    self.phase = Phase::Declaring;
                } else {
                    self.phase = Phase::Halted { reason: HaltReason::OpenFailed };
                }
            },
            (Phase::Declaring, Event::Declared { ok }) => {
                if ok {
                    self.phase = Phase::Sleeping;
                } else {
                    self.phase = Phase::Halted { reason: HaltReason::DeclareFailed };
                }
            },
            (Phase::Sleeping, Event::Slept) => {
                self.phase = Phase::Timing;
            },
            (Phase::Timing, Event::Clock { now }) => {
                self.phase = Phase::Sending { now };
            },
            (Phase::Sending { now }, Event::Sent { outcome }) => {
                match outcome {
                    SendOutcome::Failed => {
                        self.phase = Phase::Halted { reason: HaltReason::SendFailed };
                    },
                    _ => {
                        let report: Report = make_report(now, self.last, self.config.rate);
                        self.phase = Phase::Reporting { report };
                    },
                }
            },
            (Phase::Reporting { report }, Event::Reported) => {
                self.last = report.sample.timestamp;
                self.phase = Phase::Sleeping;
            },
            _ => {
                self.phase = Phase::Halted { reason: HaltReason::OutOfTurn };
            },
        }
        self.action()
    }
}

/// Measures one iteration: the time since the previous sample and the rate
/// that this interval amounts to.
pub fn make_report(now: u64, last: u64, rate: usize) -> (report: Report)
    ensures
        report == report_of(now, last, rate),
        report.sample.timestamp == now,
        report.sample.elapsed == now - last,
        report.configured == rate,
        report.achieved is Some <==> now > last,
{
    let elapsed: i128 = now as i128 - last as i128;
    Report {
        sample: TimingSample { timestamp: now, elapsed },
        achieved: achieved_microhertz(elapsed),
        configured: rate,
    }
}

} // verus!
