use d_switch::controller::{switch_to, Action, PlatformScript};
use d_switch::registry::{state, FocusRegistry};

/// A transcript in which every query succeeds benignly; tests override the
/// fields they care about.
fn script() -> PlatformScript {
    PlatformScript {
        foreground: 0,
        current_desktop: Some(0),
        desktop_count: Some(9),
        switch_ok: true,
        polls: vec![Some(1)],
        window_exists: true,
        window_pinned: Some(false),
        window_desktop: Some(1),
        window_minimized: false,
    }
}

fn count_polls(trace: &[Action]) -> usize {
    trace
        .iter()
        .filter(|a| matches!(a, Action::PollCurrentDesktop { .. }))
        .count()
}

fn has_focus_or_restore(trace: &[Action]) -> bool {
    trace
        .iter()
        .any(|a| matches!(a, Action::FocusWindow { .. } | Action::RestoreWindow { .. }))
}

#[test]
fn out_of_range_target_is_noop() {
    let mut reg = state();
    let s = PlatformScript { foreground: 1, desktop_count: Some(2), ..script() };
    // The foreground window is the controller's own, so not even the save
    // phase touches the registry.
    let trace = switch_to(&mut reg, 1, 5, &s);
    assert_eq!(trace, vec![Action::QueryForegroundWindow, Action::QueryDesktopCount]);
    assert_eq!(reg.lookup(0), None);
    assert_eq!(reg.lookup(5), None);
}

#[test]
fn save_phase_precedes_bounds_check() {
    let mut reg = state();
    let s = PlatformScript {
        foreground: 7,
        current_desktop: Some(2),
        desktop_count: Some(1),
        ..script()
    };
    let trace = switch_to(&mut reg, 99, 3, &s);
    // The out-of-range target stops the switch, but the focus of the desktop
    // being left was already recorded.
    assert_eq!(reg.lookup(2), Some(7));
    assert!(!trace.contains(&Action::SwitchDesktop { index: 3 }));
}

#[test]
fn failed_count_query_stops_the_switch() {
    let mut reg = state();
    let s = PlatformScript { desktop_count: None, ..script() };
    let trace = switch_to(&mut reg, 1, 0, &s);
    assert_eq!(trace, vec![Action::QueryForegroundWindow, Action::QueryDesktopCount]);
}

#[test]
fn refused_switch_command_stops_the_run() {
    let mut reg = state();
    let s = PlatformScript { switch_ok: false, ..script() };
    let trace = switch_to(&mut reg, 1, 2, &s);
    assert_eq!(
        trace,
        vec![
            Action::QueryForegroundWindow,
            Action::QueryDesktopCount,
            Action::SwitchDesktop { index: 2 },
        ]
    );
}

#[test]
fn failed_validation_window_not_focused() {
    let mut reg = state();
    reg.save(1, 42);
    let s = PlatformScript {
        window_pinned: Some(false),
        window_desktop: Some(0),
        ..script()
    };
    let trace = switch_to(&mut reg, 1, 1, &s);
    assert_eq!(
        trace,
        vec![
            Action::QueryForegroundWindow,
            Action::QueryDesktopCount,
            Action::SwitchDesktop { index: 1 },
            Action::PollCurrentDesktop { wait_first: false },
            Action::QueryWindowExists { window: 42 },
            Action::QueryWindowPinned { window: 42 },
            Action::QueryWindowDesktop { window: 42 },
        ]
    );
    assert!(!has_focus_or_restore(&trace));
}

#[test]
fn pinned_overrides_residency() {
    let mut reg = state();
    reg.save(1, 42);
    let s = PlatformScript {
        window_pinned: Some(true),
        window_desktop: Some(0),
        ..script()
    };
    let trace = switch_to(&mut reg, 1, 1, &s);
    assert_eq!(trace.last(), Some(&Action::FocusWindow { window: 42 }));
    // Pinned settles it without a residency query.
    assert!(!trace.contains(&Action::QueryWindowDesktop { window: 42 }));
}

#[test]
fn failed_pinned_query_counts_as_not_pinned() {
    let mut reg = state();
    reg.save(1, 42);
    let s = PlatformScript {
        window_pinned: None,
        window_desktop: Some(1),
        ..script()
    };
    let trace = switch_to(&mut reg, 1, 1, &s);
    assert!(trace.contains(&Action::QueryWindowDesktop { window: 42 }));
    assert_eq!(trace.last(), Some(&Action::FocusWindow { window: 42 }));
}

#[test]
fn dead_window_is_left_alone() {
    let mut reg = state();
    reg.save(1, 42);
    let s = PlatformScript { window_exists: false, ..script() };
    let trace = switch_to(&mut reg, 1, 1, &s);
    assert_eq!(trace.last(), Some(&Action::QueryWindowExists { window: 42 }));
    assert!(!has_focus_or_restore(&trace));
}

#[test]
fn minimized_window_is_restored_before_focus() {
    let mut reg = state();
    reg.save(1, 42);
    let s = PlatformScript { window_minimized: true, ..script() };
    let trace = switch_to(&mut reg, 1, 1, &s);
    let tail = &trace[trace.len() - 3..];
    assert_eq!(
        tail,
        &[
            Action::QueryWindowMinimized { window: 42 },
            Action::RestoreWindow { window: 42 },
            Action::FocusWindow { window: 42 },
        ]
    );
}

#[test]
fn empty_registry_confirmed_first_poll() {
    // Desktops 0..=2 exist, nothing registered: the switch is confirmed on
    // the first poll and no focus restore is requested.
    let mut reg = state();
    let s = PlatformScript {
        desktop_count: Some(3),
        polls: vec![Some(1)],
        ..script()
    };
    let trace = switch_to(&mut reg, 1, 1, &s);
    assert_eq!(
        trace,
        vec![
            Action::QueryForegroundWindow,
            Action::QueryDesktopCount,
            Action::SwitchDesktop { index: 1 },
            Action::PollCurrentDesktop { wait_first: false },
        ]
    );
    assert!(!has_focus_or_restore(&trace));
}

#[test]
fn two_switches_restore_previous_focus() {
    // The window 7 holds focus on desktop 0; a slot-two press switches to
    // desktop index 1, then a slot-one press comes back.
    let mut reg = state();
    let own = 99;
    let first = PlatformScript {
        foreground: 7,
        current_desktop: Some(0),
        polls: vec![Some(1)],
        window_desktop: Some(1),
        ..script()
    };
    let trace1 = switch_to(&mut reg, own, 1, &first);
    assert_eq!(reg.lookup(0), Some(7));
    assert!(!has_focus_or_restore(&trace1));
    let second = PlatformScript {
        foreground: 8,
        current_desktop: Some(1),
        polls: vec![Some(0)],
        window_desktop: Some(0),
        ..script()
    };
    let trace2 = switch_to(&mut reg, own, 0, &second);
    assert_eq!(reg.lookup(0), Some(7));
    assert_eq!(reg.lookup(1), Some(8));
    assert_eq!(trace2.last(), Some(&Action::FocusWindow { window: 7 }));
}

#[test]
fn poll_exhaustion_still_restores() {
    let mut reg = state();
    reg.save(1, 42);
    let s = PlatformScript {
        polls: vec![Some(0); 16],
        ..script()
    };
    let trace = switch_to(&mut reg, 1, 1, &s);
    assert_eq!(count_polls(&trace), 12);
    assert_eq!(
        trace.iter().filter(|a| **a == Action::PollCurrentDesktop { wait_first: false }).count(),
        1
    );
    assert_eq!(trace.last(), Some(&Action::FocusWindow { window: 42 }));
}

#[test]
fn exhausted_poll_answers_count_as_confirmation() {
    // A reading past the end of the recorded list stands for a failed query,
    // which ends the wait rather than prolong it.
    let mut reg = state();
    let s = PlatformScript {
        polls: vec![Some(0), Some(0)],
        ..script()
    };
    let trace = switch_to(&mut reg, 1, 1, &s);
    assert_eq!(count_polls(&trace), 3);
}

#[test]
fn failed_current_desktop_query_skips_the_save() {
    let mut reg = state();
    let s = PlatformScript {
        foreground: 7,
        current_desktop: None,
        ..script()
    };
    let trace = switch_to(&mut reg, 99, 1, &s);
    assert_eq!(reg.lookup(0), None);
    // The switch itself still proceeds.
    assert!(trace.contains(&Action::SwitchDesktop { index: 1 }));
}

#[test]
fn own_window_focus_is_not_recorded() {
    let mut reg = FocusRegistry::new();
    let s = PlatformScript { foreground: 99, ..script() };
    let trace = switch_to(&mut reg, 99, 1, &s);
    assert_eq!(reg.lookup(0), None);
    assert!(!trace.contains(&Action::QueryCurrentDesktop));
}
