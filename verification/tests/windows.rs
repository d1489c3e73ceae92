use helix_win_runner::error::Error;
use helix_win_runner::window::{
    failure_aborts, find_window, get_windows, matching_windows, validate_search, FocusAction,
    Probe, Process, Window,
};

fn window(handle: u64) -> Window {
    Window::open(handle, 100, Process::open(42, 7))
}

fn resolved(name: &str, title: &str, handle: u64) -> Probe {
    Probe::Resolved(name.to_string(), title.to_string(), window(handle))
}

#[test]
fn discovery_excludes_ime_helpers_by_default() {
    let probes = vec![
        resolved("a.exe", "Default IME", 1),
        resolved("b.exe", "real window", 2),
        resolved("c.exe", "MSCTFIME UI", 3),
        resolved("d.exe", "has Default IME inside", 4),
    ];
    let entries = get_windows(probes, false).unwrap();
    assert_eq!(entries.len(), 1);
    assert_eq!(entries[0].0, "b.exe");
    assert_eq!(entries[0].1, "real window");
    assert_eq!(entries[0].2.handle(), 2);
}

#[test]
fn discovery_keeps_ime_helpers_when_asked() {
    let probes = vec![
        resolved("a.exe", "Default IME", 1),
        resolved("b.exe", "real window", 2),
        resolved("c.exe", "MSCTFIME UI", 3),
    ];
    let entries = get_windows(probes, true).unwrap();
    assert_eq!(entries.len(), 3);
    assert_eq!(entries[0].1, "Default IME");
    assert_eq!(entries[2].1, "MSCTFIME UI");
}

#[test]
fn discovery_skips_unopened_and_untitled_windows() {
    let probes = vec![
        Probe::OpenFailed,
        resolved("a.exe", "first", 1),
        Probe::TitleFailed,
        resolved("b.exe", "second", 2),
    ];
    let entries = get_windows(probes, false).unwrap();
    assert_eq!(entries.len(), 2);
    assert_eq!(entries[0].1, "first");
    assert_eq!(entries[1].1, "second");
}

#[test]
fn discovery_fails_on_first_name_read_failure() {
    let probes = vec![
        resolved("a.exe", "first", 1),
        Probe::NameFailed(5),
        Probe::NameFailed(6),
        resolved("b.exe", "second", 2),
    ];
    let err = get_windows(probes, false).unwrap_err();
    assert_eq!(err, Error::Os(5));
}

#[test]
fn search_by_process_name_only_matches_any_title() {
    let entries = get_windows(
        vec![
            resolved("explorer.exe", "shell", 1),
            resolved("Code.exe", "main.rs - project", 2),
            resolved("CodeHelper.exe", "background", 3),
        ],
        false,
    )
    .unwrap();
    let found = find_window(&entries, "", "Code").unwrap();
    assert_eq!(entries[found].0, "Code.exe");

    let all = matching_windows(&entries, "", "Code");
    assert_eq!(all, vec![1, 2]);
}

#[test]
fn search_prefers_alphabetically_first_process_name() {
    let entries = get_windows(
        vec![
            resolved("zeta.exe", "target here", 1),
            resolved("alpha.exe", "target here", 2),
            resolved("alpha.exe", "target too", 3),
        ],
        false,
    )
    .unwrap();
    let found = find_window(&entries, "target", "").unwrap();
    assert_eq!(found, 1);
}

#[test]
fn search_requires_both_predicates_to_match() {
    let entries = get_windows(
        vec![
            resolved("Code.exe", "other title", 1),
            resolved("other.exe", "main.rs", 2),
            resolved("Code.exe", "main.rs", 3),
        ],
        false,
    )
    .unwrap();
    let found = find_window(&entries, "main.rs", "Code").unwrap();
    assert_eq!(found, 2);
    assert_eq!(matching_windows(&entries, "main.rs", "Code"), vec![2]);
}

#[test]
fn search_reports_window_not_found() {
    let entries = get_windows(vec![resolved("a.exe", "something", 1)], false).unwrap();
    let err = find_window(&entries, "absent", "").unwrap_err();
    assert_eq!(err, Error::WindowNotFound);
}

#[test]
fn empty_predicates_match_everything() {
    let entries = get_windows(
        vec![resolved("b.exe", "two", 2), resolved("a.exe", "one", 1)],
        false,
    )
    .unwrap();
    assert_eq!(matching_windows(&entries, "", ""), vec![0, 1]);
    let found = find_window(&entries, "", "").unwrap();
    assert_eq!(entries[found].0, "a.exe");
}

#[test]
fn validate_search_needs_one_predicate() {
    assert_eq!(validate_search(None, None).unwrap_err(), Error::IncompleteSearchArgument);
    let (t, n) = validate_search(Some("title".to_string()), None).unwrap();
    assert_eq!(t, "title");
    assert_eq!(n, "");
    let (t, n) = validate_search(None, Some("proc".to_string())).unwrap();
    assert_eq!(t, "");
    assert_eq!(n, "proc");
}

#[test]
fn pop_focus_issues_the_five_calls_in_order() {
    let w = window(9);
    let plan = w.pop_focus();
    assert_eq!(
        plan,
        vec![
            FocusAction::SetPosition { topmost: true, show: false },
            FocusAction::SetPosition { topmost: false, show: true },
            FocusAction::SetForeground,
            FocusAction::SetFocus,
            FocusAction::SetActive,
        ]
    );
    let fatal: Vec<bool> = plan.iter().map(failure_aborts).collect();
    assert_eq!(fatal, vec![true, true, false, true, true]);
}

#[test]
fn window_exposes_its_resolved_identity() {
    let w = Window::open(11, 22, Process::open(33, 44));
    assert_eq!(w.handle(), 11);
    assert_eq!(w.thread_id(), 22);
    assert_eq!(w.process().process_id(), 33);
    assert_eq!(w.process().handle(), 44);
}
