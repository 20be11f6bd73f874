//! The desktop-switch controller: performs one user-requested desktop switch
//! to completion, including best-effort focus continuity.
//!
//! Every platform capability the switch needs (desktop queries, the switch
//! command, window checks, focus commands) lives behind the event loop's
//! unverified driver. The controller is therefore an explicit transition
//! system: it hands the driver an [`Action`] to perform, the driver replies
//! with an [`Answer`], and [`SwitchTask::step`] decides what happens next.
//! Every decision taken on a platform answer — whether to record focus,
//! whether the target desktop exists, when to stop polling, whether a stored
//! window may be refocused — is made and proved here; the driver only
//! performs the requested effect and reports what the platform said.
//!
//! [`switch_to`] runs one whole switch over a [`PlatformScript`] of answers
//! gathered up front, which makes the complete operation a pure, fully
//! specified function of the registry, the target and the platform's replies.

use crate::registry::FocusRegistry;
use vstd::prelude::*;

verus! {

/// Maximum number of completion polls after a switch request was accepted.
pub const POLL_ATTEMPTS: u8 = 12;

/// Milliseconds the driver is asked to pause before a repeated completion
/// poll.
pub const POLL_INTERVAL_MS: u64 = 15;

/// A platform query or command that the controller asks its driver to
/// perform next. Window handles and desktop indices are plain integers; a
/// foreground handle of `0` stands for "no window".
#[derive(Clone, Copy, Debug, PartialEq, Eq, Structural)]
pub enum Action {
    /// Ask which window currently holds foreground focus.
    QueryForegroundWindow,
    /// Ask which desktop is currently active, to record focus against it.
    QueryCurrentDesktop,
    /// Ask how many desktops currently exist.
    QueryDesktopCount,
    /// Command the platform to activate the desktop with this index.
    SwitchDesktop { index: u32 },
    /// Read the active desktop again to see whether the switch completed;
    /// when `wait_first` holds, pause `POLL_INTERVAL_MS` milliseconds first.
    PollCurrentDesktop { wait_first: bool },
    /// Ask whether this window still exists as a live window.
    QueryWindowExists { window: u64 },
    /// Ask whether this window is pinned to all desktops.
    QueryWindowPinned { window: u64 },
    /// Ask which desktop this window currently resides on.
    QueryWindowDesktop { window: u64 },
    /// Ask whether this window is minimized.
    QueryWindowMinimized { window: u64 },
    /// Bring this window back from the minimized state.
    RestoreWindow { window: u64 },
    /// Give this window foreground focus.
    FocusWindow { window: u64 },
    /// The switch operation is complete; there is nothing more to perform.
    Done,
}

/// The platform's reply to the most recent [`Action`]. A query that the
/// platform could not answer is reported as `None`; such failures are
/// non-fatal and only narrow what the controller does next.
#[derive(Clone, Copy, Debug, PartialEq, Eq, Structural)]
pub enum Answer {
    /// The current foreground window; `0` when no window holds focus.
    ForegroundWindow { window: u64 },
    /// The active desktop index, or `None` when the query failed.
    CurrentDesktop { index: Option<u32> },
    /// The total desktop count, or `None` when the query failed.
    DesktopCount { count: Option<u32> },
    /// Whether the platform accepted the switch command.
    SwitchIssued { ok: bool },
    /// Whether the window still exists.
    WindowExists { exists: bool },
    /// Whether the window is pinned, or `None` when the query failed.
    WindowPinned { pinned: Option<bool> },
    /// The desktop owning the window, or `None` when the query failed.
    WindowDesktop { index: Option<u32> },
    /// Whether the window is minimized.
    WindowMinimized { minimized: bool },
    /// The commanded effect (restore or focus) has been performed.
    Acted,
}

/// Where a switch operation stands between two driver interactions.
#[derive(Clone, Copy, Debug, PartialEq, Eq, Structural)]
pub enum Phase {
    /// Save phase: waiting to learn the current foreground window.
    QueryingForeground,
    /// Save phase: waiting to learn the active desktop, so `foreground` can
    /// be recorded against it.
    QueryingSaveDesktop { foreground: u64 },
    /// Bounds check: waiting to learn how many desktops exist.
    QueryingCount,
    /// Waiting to hear whether the switch command was accepted.
    AwaitingSwitch,
    /// Completion wait: `polls_done` readings of the active desktop have
    /// been consumed without moving on.
    Polling { polls_done: u8 },
    /// Restore phase: waiting to hear whether the stored window exists.
    CheckingExists { window: u64 },
    /// Restore phase: waiting to hear whether the window is pinned.
    CheckingPinned { window: u64 },
    /// Restore phase: waiting to hear which desktop owns the window.
    CheckingResidency { window: u64 },
    /// Restore phase: waiting to hear whether the window is minimized.
    CheckingMinimized { window: u64 },
    /// Waiting for the driver to restore the minimized window.
    Restoring { window: u64 },
    /// Waiting for the driver to hand the window foreground focus.
    Focusing { window: u64 },
    /// The operation has ended; no further action will be requested.
    Finished,
}

/// One in-flight desktop switch: the requested target, the controller's own
/// (hidden) window — whose focus is never worth recording — and the current
/// phase.
pub struct SwitchTask {
    /// Index of the desktop this switch is heading for.
    pub target: u32,
    /// Handle of the controller's own hidden window.
    pub own_window: u64,
    /// Where the operation currently stands.
    pub phase: Phase,
}

/// The same task with another phase.
pub open spec fn with_phase(t: SwitchTask, p: Phase) -> SwitchTask {
    SwitchTask { phase: p, ..t }
}

/// The task ended early: every failure is a non-fatal exit of the current
/// operation, never an error surfaced to the caller.
pub open spec fn halted(t: SwitchTask, reg: Map<u32, u64>) -> (SwitchTask, Map<u32, u64>, Action) {
    (with_phase(t, Phase::Finished), reg, Action::Done)
}

/// Whether the save phase records an entry: there is a foreground window, it
/// is not the controller's own, and the active-desktop query succeeded.
pub open spec fn save_applies(own: u64, foreground: u64, current: Option<u32>) -> bool {
    foreground != 0 && foreground != own && current is Some
}

/// The registry contents after the save phase.
pub open spec fn save_effect(
    reg: Map<u32, u64>,
    own: u64,
    foreground: u64,
    current: Option<u32>,
) -> Map<u32, u64> {
    if save_applies(own, foreground, current) {
        reg.insert(current.unwrap(), foreground)
    } else {
        reg
    }
}

/// Whether the switch command is issued at all: the desktop-count query must
/// succeed and the target must lie within the count. This guards against
/// stale hotkey bindings that refer to a desktop slot that was removed.
pub open spec fn switch_issued(count: Option<u32>, target: u32) -> bool {
    match count {
        Some(n) => target < n,
        None => false,
    }
}

/// Whether one completion reading ends the poll: the platform reports the
/// target as active, or the reading failed (a failed query is taken as
/// completion rather than a reason to keep waiting).
pub open spec fn poll_confirms(reading: Option<u32>, target: u32) -> bool {
    match reading {
        Some(i) => i == target,
        None => true,
    }
}

/// The window the restore phase will consider: whatever the registry holds
/// for the target desktop, if anything.
pub open spec fn restore_candidate(reg: Map<u32, u64>, target: u32) -> Option<u64> {
    if reg.contains_key(target) {
        Some(reg[target])
    } else {
        None
    }
}

/// The restore phase begins once polling ends: look the target desktop up in
/// the registry and either start validating the stored window or finish.
pub open spec fn begin_restore(t: SwitchTask, reg: Map<u32, u64>) -> (
    SwitchTask,
    Map<u32, u64>,
    Action,
) {
    match restore_candidate(reg, t.target) {
        Some(window) => (
            with_phase(t, Phase::CheckingExists { window }),
            reg,
            Action::QueryWindowExists { window },
        ),
        None => halted(t, reg),
    }
}

/// The controller's full transition relation: given a task, the registry
/// contents and the platform's answer to the outstanding action, the next
/// task, registry contents and requested action. An answer that does not
/// match the outstanding action — the platform contract was broken — halts
/// the operation, as does any answer to a finished task.
pub open spec fn transition(t: SwitchTask, reg: Map<u32, u64>, answer: Answer) -> (
    SwitchTask,
    Map<u32, u64>,
    Action,
) {
    match (t.phase, answer) {
        (Phase::QueryingForeground, Answer::ForegroundWindow { window }) => if window == 0
            || window == t.own_window {
            (with_phase(t, Phase::QueryingCount), reg, Action::QueryDesktopCount)
        } else {
            (
                with_phase(t, Phase::QueryingSaveDesktop { foreground: window }),
                reg,
                Action::QueryCurrentDesktop,
            )
        },
        (Phase::QueryingSaveDesktop { foreground }, Answer::CurrentDesktop { index }) => match index {
            Some(current) => (
                with_phase(t, Phase::QueryingCount),
                reg.insert(current, foreground),
                Action::QueryDesktopCount,
            ),
            None => (with_phase(t, Phase::QueryingCount), reg, Action::QueryDesktopCount),
        },
        (Phase::QueryingCount, Answer::DesktopCount { count }) => if switch_issued(
            count,
            t.target,
        ) {
            (with_phase(t, Phase::AwaitingSwitch), reg, Action::SwitchDesktop { index: t.target })
        } else {
            halted(t, reg)
        },
        (Phase::AwaitingSwitch, Answer::SwitchIssued { ok }) => if ok {
            (
                with_phase(t, Phase::Polling { polls_done: 0 }),
                reg,
                Action::PollCurrentDesktop { wait_first: false },
            )
        } else {
            halted(t, reg)
        },
        (Phase::Polling { polls_done }, Answer::CurrentDesktop { index }) => if poll_confirms(
            index,
            t.target,
        ) || polls_done + 1 >= POLL_ATTEMPTS {
            begin_restore(t, reg)
        } else {
            (
                with_phase(t, Phase::Polling { polls_done: (polls_done + 1) as u8 }),
                reg,
                Action::PollCurrentDesktop { wait_first: true },
            )
        },
        (Phase::CheckingExists { window }, Answer::WindowExists { exists }) => if exists {
            (
                with_phase(t, Phase::CheckingPinned { window }),
                reg,
                Action::QueryWindowPinned { window },
            )
        } else {
            halted(t, reg)
        },
        (Phase::CheckingPinned { window }, Answer::WindowPinned { pinned }) => if pinned == Some(
            true,
        ) {
            (
                with_phase(t, Phase::CheckingMinimized { window }),
                reg,
                Action::QueryWindowMinimized { window },
            )
        } else {
            (
                with_phase(t, Phase::CheckingResidency { window }),
                reg,
                Action::QueryWindowDesktop { window },
            )
        },
        (Phase::CheckingResidency { window }, Answer::WindowDesktop { index }) => if index == Some(
            t.target,
        ) {
            (
                with_phase(t, Phase::CheckingMinimized { window }),
                reg,
                Action::QueryWindowMinimized { window },
            )
        } else {
            halted(t, reg)
        },
        (Phase::CheckingMinimized { window }, Answer::WindowMinimized { minimized }) => if minimized {
            (with_phase(t, Phase::Restoring { window }), reg, Action::RestoreWindow { window })
        } else {
            (with_phase(t, Phase::Focusing { window }), reg, Action::FocusWindow { window })
        },
        (Phase::Restoring { window }, Answer::Acted) => (
            with_phase(t, Phase::Focusing { window }),
            reg,
            Action::FocusWindow { window },
        ),
        (Phase::Focusing { window }, Answer::Acted) => (
            with_phase(t, Phase::Finished),
            reg,
            Action::Done,
        ),
        _ => halted(t, reg),
    }
}

impl Action {
    /// Whether this action asks the driver for another completion reading.
    pub fn is_poll(&self) -> (b: bool)
        ensures
            b == (*self is PollCurrentDesktop),
    {
        match self {
            Action::PollCurrentDesktop { .. } => true,
            _ => false,
        }
    }
}

impl SwitchTask {
    /// Begins a switch towards `target`: the first thing the controller
    /// needs to know is which window currently holds focus.
    pub fn start(own_window: u64, target: u32) -> (r: (SwitchTask, Action))
        ensures
            r.0 == (SwitchTask { target, own_window, phase: Phase::QueryingForeground }),
            r.1 == Action::QueryForegroundWindow,
    {
        (
            SwitchTask { target, own_window, phase: Phase::QueryingForeground },
            Action::QueryForegroundWindow,
        )
    }

    /// Consumes the platform's answer to the outstanding action and returns
    /// the next action to perform; the task, the registry and the returned
    /// action move exactly as [`transition`] says.
    pub fn step(&mut self, registry: &mut FocusRegistry, answer: Answer) -> (action: Action)
        ensures
            *final(self) == transition(*old(self), old(registry)@, answer).0,
            final(registry)@ == transition(*old(self), old(registry)@, answer).1,
            action == transition(*old(self), old(registry)@, answer).2,
    {
        match (self.phase, answer) {
            (Phase::QueryingForeground, Answer::ForegroundWindow { window }) => {
                if window == 0 || window == self.own_window {
                    self.phase = Phase::QueryingCount;
                    Action::QueryDesktopCount
                } else {
                    self.phase = Phase::QueryingSaveDesktop { foreground: window };
                    Action::QueryCurrentDesktop
                }
            },
            (Phase::QueryingSaveDesktop { foreground }, Answer::CurrentDesktop { index }) => {
                if let Some(current) = index {
                    registry.save(current, foreground);
                }
                self.phase = Phase::QueryingCount;
                Action::QueryDesktopCount
            },
            (Phase::QueryingCount, Answer::DesktopCount { count }) => {
                let proceed = match count {
                    Some(n) => self.target < n,
                    None => false,
                };
                if proceed {
                    self.phase = Phase::AwaitingSwitch;
                    Action::SwitchDesktop { index: self.target }
                } else {
                    self.phase = Phase::Finished;
                    Action::Done
                }
            },
            (Phase::AwaitingSwitch, Answer::SwitchIssued { ok }) => {
                if ok {
                    self.phase = Phase::Polling { polls_done: 0 };
                    Action::PollCurrentDesktop { wait_first: false }
                } else {
                    self.phase = Phase::Finished;
                    Action::Done
                }
            },
            (Phase::Polling { polls_done }, Answer::CurrentDesktop { index }) => {
                let confirmed = match index {
                    Some(i) => i == self.target,
                    None => true,
                };
                if confirmed || polls_done >= POLL_ATTEMPTS - 1 {
                    self.enter_restore(registry)
                } else {
                    self.phase = Phase::Polling { polls_done: polls_done + 1 };
                    Action::PollCurrentDesktop { wait_first: true }
                }
            },
            (Phase::CheckingExists { window }, Answer::WindowExists { exists }) => {
                if exists {
                    self.phase = Phase::CheckingPinned { window };
                    Action::QueryWindowPinned { window }
                } else {
                    self.phase = Phase::Finished;
                    Action::Done
                }
            },
            (Phase::CheckingPinned { window }, Answer::WindowPinned { pinned }) => {
                let is_pinned = match pinned {
                    Some(p) => p,
                    None => false,
                };
                if is_pinned {
                    self.phase = Phase::CheckingMinimized { window };
                    Action::QueryWindowMinimized { window }
                } else {
                    self.phase = Phase::CheckingResidency { window };
                    Action::QueryWindowDesktop { window }
                }
            },
            (Phase::CheckingResidency { window }, Answer::WindowDesktop { index }) => {
                let resident = match index {
                    Some(i) => i == self.target,
                    None => false,
                };
                if resident {
                    self.phase = Phase::CheckingMinimized { window };
                    Action::QueryWindowMinimized { window }
                } else {
                    self.phase = Phase::Finished;
                    Action::Done
                }
            },
            (Phase::CheckingMinimized { window }, Answer::WindowMinimized { minimized }) => {
                if minimized {
                    self.phase = Phase::Restoring { window };
                    Action::RestoreWindow { window }
                } else {
                    self.phase = Phase::Focusing { window };
                    Action::FocusWindow { window }
                }
            },
            (Phase::Restoring { window }, Answer::Acted) => {
                self.phase = Phase::Focusing { window };
                Action::FocusWindow { window }
            },
            (Phase::Focusing { window }, Answer::Acted) => {
                self.phase = Phase::Finished;
                Action::Done
            },
            _ => {
                self.phase = Phase::Finished;
                Action::Done
            },
        }
    }

    /// Polling has ended: look the target up in the registry and either
    /// start validating the stored window or finish.
    fn enter_restore(&mut self, registry: &FocusRegistry) -> (action: Action)
        ensures
            *final(self) == begin_restore(*old(self), registry@).0,
            action == begin_restore(*old(self), registry@).2,
            final(self).target == old(self).target,
    {
        match registry.lookup(self.target) {
            Some(window) => {
                self.phase = Phase::CheckingExists { window };
                Action::QueryWindowExists { window }
            },
            None => {
                self.phase = Phase::Finished;
                Action::Done
            },
        }
    }
}

/// The platform's replies for one whole switch, gathered up front. Feeding
/// [`switch_to`] from such a transcript makes the complete operation a pure
/// function of the registry, the target and the platform's behaviour, so its
/// outcome can be stated — and tested — exactly.
pub struct PlatformScript {
    /// Reply to [`Action::QueryForegroundWindow`]; `0` when no window holds
    /// focus.
    pub foreground: u64,
    /// Reply to [`Action::QueryCurrentDesktop`]; `None` when the query fails.
    pub current_desktop: Option<u32>,
    /// Reply to [`Action::QueryDesktopCount`]; `None` when the query fails.
    pub desktop_count: Option<u32>,
    /// Whether the platform accepts [`Action::SwitchDesktop`].
    pub switch_ok: bool,
    /// Successive replies to [`Action::PollCurrentDesktop`]; a reading past
    /// the end of this list stands for a failed query.
    pub polls: Vec<Option<u32>>,
    /// Reply to [`Action::QueryWindowExists`].
    pub window_exists: bool,
    /// Reply to [`Action::QueryWindowPinned`]; `None` when the query fails.
    pub window_pinned: Option<bool>,
    /// Reply to [`Action::QueryWindowDesktop`]; `None` when the query fails.
    pub window_desktop: Option<u32>,
    /// Reply to [`Action::QueryWindowMinimized`].
    pub window_minimized: bool,
}

/// The completion reading consumed by poll number `k`; a reading past the
/// end of the recorded list stands for a failed query.
pub open spec fn poll_reading(polls: Seq<Option<u32>>, k: int) -> Option<u32> {
    if 0 <= k < polls.len() {
        polls[k]
    } else {
        None
    }
}

/// How many completion readings a run consumes once `done` of them are
/// already behind it: one more for each reading that does not confirm the
/// switch, stopping at the first confirming reading or after
/// `POLL_ATTEMPTS` readings in total.
pub open spec fn polls_consumed_from(polls: Seq<Option<u32>>, target: u32, done: int) -> int
    decreases POLL_ATTEMPTS - done,
{
    if done < 0 || done >= POLL_ATTEMPTS {
        0
    } else if poll_confirms(poll_reading(polls, done), target) {
        1
    } else {
        1 + polls_consumed_from(polls, target, done + 1)
    }
}

/// How many completion readings a run consumes in total.
pub open spec fn polls_consumed(polls: Seq<Option<u32>>, target: u32) -> int {
    polls_consumed_from(polls, target, 0)
}

/// The queries of the save and bounds-check phases, before any switch
/// command: the current-desktop query happens only for a foreground window
/// worth recording.
pub open spec fn prologue_trace(own: u64, foreground: u64) -> Seq<Action> {
    if foreground != 0 && foreground != own {
        seq![
            Action::QueryForegroundWindow,
            Action::QueryCurrentDesktop,
            Action::QueryDesktopCount,
        ]
    } else {
        seq![Action::QueryForegroundWindow, Action::QueryDesktopCount]
    }
}

/// The first `n` completion polls, in order: only the first goes out without
/// a pause.
pub open spec fn poll_actions(n: int) -> Seq<Action>
    decreases n,
{
    if n <= 0 {
        seq![]
    } else {
        poll_actions(n - 1).push(Action::PollCurrentDesktop { wait_first: n - 1 != 0 })
    }
}

/// The completion polls of a run whose switch command was accepted.
pub open spec fn poll_trace(polls: Seq<Option<u32>>, target: u32) -> Seq<Action> {
    poll_actions(polls_consumed(polls, target))
}

/// Whether the stored window passes validation and may be focused: it must
/// exist, and be pinned to all desktops or resident on the target desktop.
pub open spec fn focus_allowed(s: PlatformScript, target: u32) -> bool {
    s.window_exists && (s.window_pinned == Some(true) || s.window_desktop == Some(target))
}

/// The tail of the restore phase once validation has passed: an extra
/// restore command for a minimized window, then the focus command.
pub open spec fn finish_trace(s: PlatformScript, w: u64) -> Seq<Action> {
    if s.window_minimized {
        seq![
            Action::QueryWindowMinimized { window: w },
            Action::RestoreWindow { window: w },
            Action::FocusWindow { window: w },
        ]
    } else {
        seq![Action::QueryWindowMinimized { window: w }, Action::FocusWindow { window: w }]
    }
}

/// The restore phase of a run whose switch command was accepted: nothing
/// without a stored candidate; otherwise the validation queries in order,
/// stopping at the first that disqualifies the window, and the focus
/// commands only when validation passes.
pub open spec fn restore_trace(s: PlatformScript, target: u32, candidate: Option<u64>) -> Seq<
    Action,
> {
    match candidate {
        None => seq![],
        Some(w) => {
            if !s.window_exists {
                seq![Action::QueryWindowExists { window: w }]
            } else if s.window_pinned == Some(true) {
                seq![
                    Action::QueryWindowExists { window: w },
                    Action::QueryWindowPinned { window: w },
                ] + finish_trace(s, w)
            } else if s.window_desktop == Some(target) {
                seq![
                    Action::QueryWindowExists { window: w },
                    Action::QueryWindowPinned { window: w },
                    Action::QueryWindowDesktop { window: w },
                ] + finish_trace(s, w)
            } else {
                seq![
                    Action::QueryWindowExists { window: w },
                    Action::QueryWindowPinned { window: w },
                    Action::QueryWindowDesktop { window: w },
                ]
            }
        },
    }
}

/// Everything a whole run asks its driver to perform, in order, as a
/// function of the starting registry and the platform's replies.
pub open spec fn switch_trace(reg: Map<u32, u64>, own: u64, target: u32, s: PlatformScript) -> Seq<
    Action,
> {
    let pro = prologue_trace(own, s.foreground);
    if !switch_issued(s.desktop_count, target) {
        pro
    } else if !s.switch_ok {
        pro + seq![Action::SwitchDesktop { index: target }]
    } else {
        pro + seq![Action::SwitchDesktop { index: target }] + poll_trace(s.polls@, target)
            + restore_trace(
            s,
            target,
            restore_candidate(save_effect(reg, own, s.foreground, s.current_desktop), target),
        )
    }
}

/// The completion reading for poll number `k`.
fn poll_value(script: &PlatformScript, k: usize) -> (r: Option<u32>)
    ensures
        r == poll_reading(script.polls@, k as int),
{
    if k < script.polls.len() {
        script.polls[k]
    } else {
        None
    }
}

/// Performs one user-requested desktop switch to completion against a
/// transcript of platform replies, driving the same transition system a live
/// driver does, and returns the actions it requested, in order.
///
/// The registry ends exactly as the save phase leaves it, and the returned
/// trace is exactly [`switch_trace`]: the switch command goes out only for a
/// target within the reported desktop count, at most [`POLL_ATTEMPTS`]
/// completion polls are consumed, and the stored window is focused only when
/// it exists and is pinned or resident on the target desktop.
pub fn switch_to(
    registry: &mut FocusRegistry,
    own_window: u64,
    target: u32,
    script: &PlatformScript,
) -> (trace: Vec<Action>)
    ensures
        final(registry)@ == save_effect(
            old(registry)@,
            own_window,
            script.foreground,
            script.current_desktop,
        ),
        trace@ == switch_trace(old(registry)@, own_window, target, *script),
{
    let ghost reg0: Map<u32, u64> = registry@;
    let mut trace: Vec<Action> = Vec::new();
    let (mut task, first) = SwitchTask::start(own_window, target);
    trace.push(first);
    let mut action = task.step(registry, Answer::ForegroundWindow { window: script.foreground });
    if action == Action::QueryCurrentDesktop {
        trace.push(action);
        action = task.step(registry, Answer::CurrentDesktop { index: script.current_desktop });
    }
    trace.push(action);
    assert(trace@ =~= prologue_trace(own_window, script.foreground));
    action = task.step(registry, Answer::DesktopCount { count: script.desktop_count });
    let ghost reg1: Map<u32, u64> = registry@;
    assert(reg1 == save_effect(reg0, own_window, script.foreground, script.current_desktop));
    if action == Action::Done {
        assert(trace@ =~= switch_trace(reg0, own_window, target, *script));
        return trace;
    }
    trace.push(action);
    action = task.step(registry, Answer::SwitchIssued { ok: script.switch_ok });
    let ghost pre: Seq<Action> = trace@;
    if action == Action::Done {
        assert(trace@ =~= switch_trace(reg0, own_window, target, *script));
        return trace;
    }
    let ghost candidate: Option<u64> = restore_candidate(reg1, target);
    let mut k: u8 = 0;
    while action.is_poll()
        invariant
            registry@ == reg1,
            candidate == restore_candidate(reg1, target),
            task.target == target,
            task.own_window == own_window,
            0 <= k <= POLL_ATTEMPTS,
            action is PollCurrentDesktop ==> {
                &&& task.phase == (Phase::Polling { polls_done: k })
                &&& k < POLL_ATTEMPTS
                &&& action == (Action::PollCurrentDesktop { wait_first: k != 0 })
                &&& forall|j: int|
                    0 <= j < k ==> !poll_confirms(poll_reading(script.polls@, j), target)
                &&& trace@ == pre + poll_actions(k as int)
            },
            !(action is PollCurrentDesktop) ==> {
                &&& trace@ == pre + poll_trace(script.polls@, target)
                &&& match candidate {
                    Some(w) => task.phase == (Phase::CheckingExists { window: w }) && action
                        == (Action::QueryWindowExists { window: w }),
                    None => task.phase == Phase::Finished && action == Action::Done,
                }
            },
        decreases POLL_ATTEMPTS - k,
    {
        trace.push(action);
        let reading = poll_value(script, k as usize);
        action = task.step(registry, Answer::CurrentDesktop { index: reading });
        proof {
            assert(pre + poll_actions(k as int + 1) =~= (pre + poll_actions(k as int)).push(
                Action::PollCurrentDesktop { wait_first: k != 0 },
            ));
            let t0 = SwitchTask { target, own_window, phase: Phase::Polling { polls_done: k } };
            let stepped = transition(t0, reg1, Answer::CurrentDesktop { index: reading });
            if !(stepped.2 is PollCurrentDesktop) {
                lemma_polls_consumed_prefix(script.polls@, target, 0, k as int);
            }
        }
        k = k + 1;
    }
    if action == Action::Done {
        assert(trace@ =~= switch_trace(reg0, own_window, target, *script));
        return trace;
    }
    let w = match action {
        Action::QueryWindowExists { window } => window,
        _ => {
            assert(false);
            0
        },
    };
    trace.push(action);
    action = task.step(registry, Answer::WindowExists { exists: script.window_exists });
    if action == Action::Done {
        assert(trace@ =~= switch_trace(reg0, own_window, target, *script));
        return trace;
    }
    trace.push(action);
    action = task.step(registry, Answer::WindowPinned { pinned: script.window_pinned });
    if action == (Action::QueryWindowDesktop { window: w }) {
        trace.push(action);
        action = task.step(registry, Answer::WindowDesktop { index: script.window_desktop });
        if action == Action::Done {
            assert(trace@ =~= switch_trace(reg0, own_window, target, *script));
            return trace;
        }
    }
    trace.push(action);
    action = task.step(registry, Answer::WindowMinimized { minimized: script.window_minimized });
    if action == (Action::RestoreWindow { window: w }) {
        trace.push(action);
        action = task.step(registry, Answer::Acted);
    }
    trace.push(action);
    let _ = task.step(registry, Answer::Acted);
    assert(trace@ =~= switch_trace(reg0, own_window, target, *script));
    trace
}

/// Readings that do not confirm the switch keep the poll going: when the
/// first `k` readings all fail to confirm and reading `k` ends the wait —
/// by confirming, or by being the last attempt — exactly `k + 1` readings
/// are consumed.
proof fn lemma_polls_consumed_prefix(polls: Seq<Option<u32>>, target: u32, done: int, k: int)
    requires
        0 <= done <= k,
        k + 1 <= POLL_ATTEMPTS,
        forall|j: int| done <= j < k ==> !poll_confirms(poll_reading(polls, j), target),
        poll_confirms(poll_reading(polls, k), target) || k + 1 == POLL_ATTEMPTS,
    ensures
        polls_consumed_from(polls, target, done) == k + 1 - done,
    decreases k - done,
{
    if done < k {
        lemma_polls_consumed_prefix(polls, target, done + 1, k);
    } else {
        if !poll_confirms(poll_reading(polls, k), target) {
            assert(polls_consumed_from(polls, target, k + 1) == 0);
        }
    }
}

/// The completion wait is bounded: a run consumes at most `POLL_ATTEMPTS`
/// completion readings — the controller gives up and proceeds rather than
/// wait without end.
pub proof fn lemma_poll_wait_bounded(polls: Seq<Option<u32>>, target: u32)
    ensures
        0 <= polls_consumed(polls, target) <= POLL_ATTEMPTS,
{
    lemma_polls_consumed_from_bounded(polls, target, 0);
}

proof fn lemma_polls_consumed_from_bounded(polls: Seq<Option<u32>>, target: u32, done: int)
    requires
        0 <= done <= POLL_ATTEMPTS,
    ensures
        0 <= polls_consumed_from(polls, target, done) <= POLL_ATTEMPTS - done,
    decreases POLL_ATTEMPTS - done,
{
    if done < POLL_ATTEMPTS && !poll_confirms(poll_reading(polls, done), target) {
        lemma_polls_consumed_from_bounded(polls, target, done + 1);
    }
}

proof fn lemma_poll_actions_elements(n: int)
    ensures
        poll_actions(n).len() == (if n <= 0 {
            0int
        } else {
            n
        }),
        forall|i: int|
            0 <= i < poll_actions(n).len() ==> (#[trigger] poll_actions(n)[i])
                is PollCurrentDesktop,
    decreases n,
{
    if n > 0 {
        lemma_poll_actions_elements(n - 1);
    }
}

/// Which effects a run can request at all: a switch command only when the
/// target lies within the reported desktop count, and a restore or focus
/// command only when a stored window passed validation — it exists, and is
/// pinned or resident on the target desktop.
pub proof fn lemma_switch_trace_effects(reg: Map<u32, u64>, own: u64, target: u32, s: PlatformScript)
    ensures
        forall|i: int|
            0 <= i < switch_trace(reg, own, target, s).len() ==> {
                let a = #[trigger] switch_trace(reg, own, target, s)[i];
                &&& (a is SwitchDesktop ==> switch_issued(s.desktop_count, target))
                &&& ((a is FocusWindow || a is RestoreWindow) ==> switch_issued(
                    s.desktop_count,
                    target,
                ) && s.switch_ok && restore_candidate(
                    save_effect(reg, own, s.foreground, s.current_desktop),
                    target,
                ) is Some && focus_allowed(s, target))
            },
{
    let tr = switch_trace(reg, own, target, s);
    let pro = prologue_trace(own, s.foreground);
    let cand = restore_candidate(save_effect(reg, own, s.foreground, s.current_desktop), target);
    let pt = poll_trace(s.polls@, target);
    let rt = restore_trace(s, target, cand);
    lemma_poll_actions_elements(polls_consumed(s.polls@, target));
    assert forall|i: int| 0 <= i < tr.len() implies {
        let a = #[trigger] tr[i];
        &&& (a is SwitchDesktop ==> switch_issued(s.desktop_count, target))
        &&& ((a is FocusWindow || a is RestoreWindow) ==> switch_issued(s.desktop_count, target)
            && s.switch_ok && cand is Some && focus_allowed(s, target))
    } by {
        if !switch_issued(s.desktop_count, target) {
            assert(tr[i] == pro[i]);
        } else if !s.switch_ok {
            if i < pro.len() {
                assert(tr[i] == pro[i]);
            } else {
                assert(tr[i] == Action::SwitchDesktop { index: target });
            }
        } else {
            if i < pro.len() {
                assert(tr[i] == pro[i]);
            } else if i == pro.len() {
                assert(tr[i] == Action::SwitchDesktop { index: target });
            } else if i < pro.len() + 1 + pt.len() {
                assert(tr[i] == pt[i - pro.len() - 1]);
            } else {
                assert(tr[i] == rt[i - pro.len() - 1 - pt.len()]);
                if !focus_allowed(s, target) {
                    assert(!(rt[i - pro.len() - 1 - pt.len()] is FocusWindow) && !(rt[i
                        - pro.len() - 1 - pt.len()] is RestoreWindow));
                }
            }
        }
    }
}

/// A requested target at or beyond the reported desktop count aborts the
/// whole operation before the switch: the run issues no switch, restore or
/// focus command, and — provided the save phase, which precedes the bounds
/// check, had nothing to record — the registry is left exactly as it was.
pub proof fn lemma_out_of_range_target_is_noop(
    reg: Map<u32, u64>,
    own: u64,
    target: u32,
    s: PlatformScript,
    n: u32,
)
    requires
        s.desktop_count == Some(n),
        target >= n,
        !save_applies(own, s.foreground, s.current_desktop),
    ensures
        save_effect(reg, own, s.foreground, s.current_desktop) == reg,
        forall|i: int|
            0 <= i < switch_trace(reg, own, target, s).len() ==> {
                let a = #[trigger] switch_trace(reg, own, target, s)[i];
                !(a is SwitchDesktop) && !(a is FocusWindow) && !(a is RestoreWindow)
            },
{
    lemma_switch_trace_effects(reg, own, target, s);
}

/// A stored window that fails validation — not reported pinned, not resident
/// on the target desktop — is never told to restore itself or take focus,
/// whatever else the platform reports.
pub proof fn lemma_failed_validation_never_focused(
    reg: Map<u32, u64>,
    own: u64,
    target: u32,
    s: PlatformScript,
)
    requires
        s.window_pinned != Some(true),
        s.window_desktop != Some(target),
    ensures
        forall|i: int|
            0 <= i < switch_trace(reg, own, target, s).len() ==> {
                let a = #[trigger] switch_trace(reg, own, target, s)[i];
                !(a is FocusWindow) && !(a is RestoreWindow)
            },
{
    lemma_switch_trace_effects(reg, own, target, s);
}

/// Pinned overrides residency: a stored window that exists and is reported
/// pinned regains focus even when it is reported resident on some other
/// desktop.
pub proof fn lemma_pinned_window_regains_focus(
    reg: Map<u32, u64>,
    own: u64,
    target: u32,
    s: PlatformScript,
    w: u64,
)
    requires
        switch_issued(s.desktop_count, target),
        s.switch_ok,
        restore_candidate(save_effect(reg, own, s.foreground, s.current_desktop), target) == Some(
            w,
        ),
        s.window_exists,
        s.window_pinned == Some(true),
    ensures
        switch_trace(reg, own, target, s).contains(Action::FocusWindow { window: w }),
{
    let tr = switch_trace(reg, own, target, s);
    let rt = restore_trace(s, target, Some(w));
    lemma_poll_actions_elements(polls_consumed(s.polls@, target));
    assert(rt[rt.len() - 1] == Action::FocusWindow { window: w });
    assert(tr[tr.len() - 1] == Action::FocusWindow { window: w });
    assert(tr.contains(Action::FocusWindow { window: w })) by {
        assert(tr[tr.len() - 1] == Action::FocusWindow { window: w });
    }
}

/// Exhausting the completion wait is not a failure: with readings that never
/// confirm the switch, the run consumes exactly `POLL_ATTEMPTS` of them and
/// the restore phase still follows, unchanged by what the polls reported.
pub proof fn lemma_poll_exhaustion_still_restores(
    reg: Map<u32, u64>,
    own: u64,
    target: u32,
    s: PlatformScript,
)
    requires
        switch_issued(s.desktop_count, target),
        s.switch_ok,
        forall|j: int|
            0 <= j < POLL_ATTEMPTS ==> !poll_confirms(poll_reading(s.polls@, j), target),
    ensures
        polls_consumed(s.polls@, target) == POLL_ATTEMPTS,
        switch_trace(reg, own, target, s) == prologue_trace(own, s.foreground) + seq![
            Action::SwitchDesktop { index: target },
        ] + poll_actions(POLL_ATTEMPTS as int) + restore_trace(
            s,
            target,
            restore_candidate(save_effect(reg, own, s.foreground, s.current_desktop), target),
        ),
{
    lemma_polls_consumed_prefix(s.polls@, target, 0, POLL_ATTEMPTS as int - 1);
}

} // verus!
