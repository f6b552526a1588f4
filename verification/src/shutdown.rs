//! Pausing a recorder, and waiting for it to end.
//!
//! The waiting is a state machine: the caller probes the process, hands the
//! result to `ShutdownWatch::observe` and does what it answers. The recorder
//! gets three seconds to end by itself before it is killed.

use vstd::prelude::*;
use crate::capture::{argument_views, push_argument};
use crate::decimal::{decimal_digits, decimal_of};
use crate::text::to_string;

verus! {

/// How often a recorder that was asked to quit is probed before it is killed.
pub const SHUTDOWN_POLLS: u32 = 30;

/// How long the caller sleeps between two probes, in milliseconds.
pub const SHUTDOWN_POLL_MILLIS: u64 = 100;

/// What a probe of the recorder process found.
#[derive(Clone, Copy, Debug, PartialEq, Eq, Structural)]
pub enum ProcessProbe {
    Exited,
    Running,
    /// The process could not be probed.
    Failed,
}

/// What the caller does next while it waits for the recorder to end.
#[derive(Clone, Copy, Debug, PartialEq, Eq, Structural)]
pub enum ShutdownAction {
    /// The waiting is over; nothing is left to do.
    Finished,
    /// Sleep for `SHUTDOWN_POLL_MILLIS`, then probe again.
    SleepThenProbe,
    /// Sleep for `SHUTDOWN_POLL_MILLIS`, then kill the process and wait for
    /// its end.
    SleepThenKill,
}

/// The wait for a recorder to end: how often it was found running.
#[derive(Clone, Copy, Debug, PartialEq, Eq, Structural)]
pub struct ShutdownWatch {
    pub polls: u32,
}

/// The answer to a probe after `polls` earlier probes found the recorder
/// running. A recorder that has exited, or that cannot be probed, ends the
/// wait. One that runs is probed again after a sleep, until the last of the
/// probes: then it is killed.
pub open spec fn shutdown_answer(polls: u32, probe: ProcessProbe) -> ShutdownAction {
    match probe {
        ProcessProbe::Exited => ShutdownAction::Finished,
        ProcessProbe::Failed => ShutdownAction::Finished,
        ProcessProbe::Running => if polls + 1 < SHUTDOWN_POLLS {
            ShutdownAction::SleepThenProbe
        } else {
            ShutdownAction::SleepThenKill
        },
    }
}

/// The number of probes that found the recorder running, after one more
/// probe. It is counted up to `SHUTDOWN_POLLS` and no further.
pub open spec fn polls_after(polls: u32, probe: ProcessProbe) -> u32 {
    if probe == ProcessProbe::Running && polls < SHUTDOWN_POLLS {
        (polls + 1) as u32
    } else {
        polls
    }
}

/// The answers to a run of probes, one for each, the count starting at
/// `polls`.
pub open spec fn shutdown_answers(polls: u32, probes: Seq<ProcessProbe>) -> Seq<ShutdownAction>
    decreases probes.len(),
{
    if probes.len() == 0 {
        Seq::empty()
    } else {
        seq![shutdown_answer(polls, probes[0])] + shutdown_answers(
            polls_after(polls, probes[0]),
            probes.drop_first(),
        )
    }
}

impl ShutdownWatch {
    /// The wait as it begins, before the first probe.
    pub fn new() -> (watch: ShutdownWatch)
        ensures
            watch.polls == 0,
    {
        ShutdownWatch { polls: 0 }
    }

    /// Takes the result of a probe and says what to do next. After
    /// `SleepThenProbe` the watch expects the next probe; after the other
    /// answers the wait is over.
    pub fn observe(&mut self, probe: ProcessProbe) -> (action: ShutdownAction)
        ensures
            action == shutdown_answer(old(self).polls, probe),
            final(self).polls == polls_after(old(self).polls, probe),
    {
        match probe {
            ProcessProbe::Exited => ShutdownAction::Finished,
            ProcessProbe::Failed => ShutdownAction::Finished,
            ProcessProbe::Running => {
                if self.polls < SHUTDOWN_POLLS {
                    self.polls = self.polls + 1;
                }
                if self.polls < SHUTDOWN_POLLS {
                    ShutdownAction::SleepThenProbe
                } else {
                    ShutdownAction::SleepThenKill
                }
            },
        }
    }

    /// The time slept so far, in milliseconds.
    pub fn waited_millis(&self) -> (millis: u64)
        ensures
            millis == self.polls * SHUTDOWN_POLL_MILLIS,
    {
        self.polls as u64 * SHUTDOWN_POLL_MILLIS
    }
}

/// The wait never hangs. However long the recorder keeps running, the
/// answer to the last of the probes is to kill it, every answer before that
/// is to sleep and probe again, and the sleeps add up to three seconds.
pub proof fn lemma_shutdown_is_bounded(probes: Seq<ProcessProbe>)
    requires
        probes.len() == SHUTDOWN_POLLS,
        forall|i: int| 0 <= i < probes.len() ==> probes[i] == ProcessProbe::Running,
    ensures
        shutdown_answers(0, probes).len() == SHUTDOWN_POLLS,
        shutdown_answers(0, probes).last() == ShutdownAction::SleepThenKill,
        forall|i: int|
            0 <= i < SHUTDOWN_POLLS - 1 ==> shutdown_answers(0, probes)[i]
                == ShutdownAction::SleepThenProbe,
        SHUTDOWN_POLLS * SHUTDOWN_POLL_MILLIS == 3000,
{
    lemma_running_answers(0, probes);
}

/// A recorder that has exited, or that cannot be probed, ends the wait at
/// once, whenever that is found.
pub proof fn lemma_exit_ends_the_wait(polls: u32)
    ensures
        shutdown_answer(polls, ProcessProbe::Exited) == ShutdownAction::Finished,
        shutdown_answer(polls, ProcessProbe::Failed) == ShutdownAction::Finished,
{
}

proof fn lemma_running_answers(polls: u32, probes: Seq<ProcessProbe>)
    requires
        polls + probes.len() <= SHUTDOWN_POLLS,
        forall|i: int| 0 <= i < probes.len() ==> probes[i] == ProcessProbe::Running,
    ensures
        shutdown_answers(polls, probes).len() == probes.len(),
        forall|i: int|
            0 <= i < probes.len() ==> shutdown_answers(polls, probes)[i] == if polls + i + 1
                < SHUTDOWN_POLLS {
                ShutdownAction::SleepThenProbe
            } else {
                ShutdownAction::SleepThenKill
            },
    decreases probes.len(),
{
    if probes.len() > 0 {
        let rest = probes.drop_first();
        assert forall|i: int| 0 <= i < rest.len() implies rest[i] == ProcessProbe::Running by {
            assert(rest[i] == probes[i + 1]);
        }
        assert(probes[0] == ProcessProbe::Running);
        lemma_running_answers((polls + 1) as u32, rest);
        let all = shutdown_answers(polls, probes);
        let tail = shutdown_answers((polls + 1) as u32, rest);
        assert(all == seq![shutdown_answer(polls, probes[0])] + tail);
        assert forall|i: int| 0 <= i < probes.len() implies all[i] == if polls + i + 1
            < SHUTDOWN_POLLS {
            ShutdownAction::SleepThenProbe
        } else {
            ShutdownAction::SleepThenKill
        } by {
            if i > 0 {
                assert(all[i] == tail[i - 1]);
            }
        }
    }
}

/// What is to be done to bring a recorder to the requested pause state.
#[derive(Clone, Copy, Debug, PartialEq, Eq, Structural)]
pub enum PauseAction {
    /// The requested state holds already.
    Nothing,
    /// Suspend the process.
    Suspend,
    /// Let the process continue.
    Continue,
}

/// What brings a recorder from one pause state to the requested one.
pub open spec fn pause_action_for(paused: bool, requested: bool) -> PauseAction {
    if paused == requested {
        PauseAction::Nothing
    } else if requested {
        PauseAction::Suspend
    } else {
        PauseAction::Continue
    }
}

/// What a request to pause (`requested`) or to resume (`!requested`) asks
/// for, given whether the recorder is paused now.
pub fn pause_action(paused: bool, requested: bool) -> (action: PauseAction)
    ensures
        action == pause_action_for(paused, requested),
{
    if paused == requested {
        PauseAction::Nothing
    } else if requested {
        PauseAction::Suspend
    } else {
        PauseAction::Continue
    }
}

/// What stopping asks for first: a paused recorder continues, so that it can
/// end in order.
pub fn resume_before_stop(paused: bool) -> (action: PauseAction)
    ensures
        action == pause_action_for(paused, false),
        action == if paused {
            PauseAction::Continue
        } else {
            PauseAction::Nothing
        },
{
    pause_action(paused, false)
}

/// The name of the signal that suspends a process or lets it continue.
pub open spec fn signal_name(paused: bool) -> Seq<char> {
    if paused {
        "-STOP"@
    } else {
        "-CONT"@
    }
}

/// The arguments with which the process `pid` is sent that signal.
pub open spec fn signal_arguments(pid: u32, paused: bool) -> Seq<Seq<char>> {
    seq![signal_name(paused), decimal_digits(pid as nat)]
}

/// The arguments that send the process `pid` the signal to pause or to continue.
pub fn build_signal_arguments(pid: u32, paused: bool) -> (arguments: Vec<String>)
    ensures
        argument_views(arguments@) == signal_arguments(pid, paused),
{
    let mut arguments: Vec<String> = Vec::new();
    assert(argument_views(arguments@) =~= Seq::<Seq<char>>::empty());
    push_argument(&mut arguments, if paused {
        "-STOP"
    } else {
        "-CONT"
    });
    let digits = to_string(&decimal_of(pid as u64));
    push_argument(&mut arguments, digits.as_str());
    assert(argument_views(arguments@) =~= signal_arguments(pid, paused));
    arguments
}

/// Why a recorder could not be paused or resumed.
#[derive(Clone, Copy, Debug, PartialEq, Eq, Structural)]
pub enum PauseError {
    /// The host has no signals to suspend a process with.
    Unsupported,
    /// The signal could not be delivered.
    SignalFailed,
}

impl PauseError {
    /// The error in words.
    pub open spec fn text(self) -> Seq<char> {
        match self {
            PauseError::Unsupported => "Pause/resume is currently supported on macOS/Linux only"@,
            PauseError::SignalFailed => "Failed to update recording pause state"@,
        }
    }

    /// The error in words.
    pub fn message(self) -> (s: &'static str)
        ensures
            s@ == self.text(),
    {
        match self {
            PauseError::Unsupported => "Pause/resume is currently supported on macOS/Linux only",
            PauseError::SignalFailed => "Failed to update recording pause state",
        }
    }
}

/// Whether the signal can be sent on a host: only where processes are
/// suspended by signal.
pub fn check_pause_support(host_has_signals: bool) -> (r: Result<(), PauseError>)
    ensures
        r == if host_has_signals {
            Ok::<(), PauseError>(())
        } else {
            Err::<(), PauseError>(PauseError::Unsupported)
        },
{
    if host_has_signals {
        Ok(())
    } else {
        Err(PauseError::Unsupported)
    }
}

} // verus!
