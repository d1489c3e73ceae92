use helix_win_runner::error::Error;
use helix_win_runner::focus::{FocusSession, SessionAction};
use helix_win_runner::text::{contains_str, str_le, u32_to_string};

#[test]
fn session_happy_path_attaches_pops_thrice_detaches() {
    let (mut session, first) = FocusSession::start();
    assert_eq!(first, SessionAction::AttachInput);
    assert_eq!(session.step(None), SessionAction::PopFocus);
    assert_eq!(session.step(None), SessionAction::PopFocus);
    assert_eq!(session.step(None), SessionAction::PopFocus);
    assert_eq!(session.step(None), SessionAction::DetachInput);
    assert_eq!(session.step(None), SessionAction::Finish(Ok(())));
}

#[test]
fn session_failed_attach_is_fatal_without_detach() {
    let (mut session, first) = FocusSession::start();
    assert_eq!(first, SessionAction::AttachInput);
    assert_eq!(session.step(Some(5)), SessionAction::Finish(Err(Error::Os(5))));
}

#[test]
fn session_detaches_even_when_a_pop_fails() {
    let (mut session, _) = FocusSession::start();
    assert_eq!(session.step(None), SessionAction::PopFocus);
    assert_eq!(session.step(Some(7)), SessionAction::DetachInput);
    assert_eq!(session.step(None), SessionAction::Finish(Err(Error::Os(7))));
}

#[test]
fn session_pop_failure_outranks_detach_failure() {
    let (mut session, _) = FocusSession::start();
    assert_eq!(session.step(None), SessionAction::PopFocus);
    assert_eq!(session.step(None), SessionAction::PopFocus);
    assert_eq!(session.step(Some(7)), SessionAction::DetachInput);
    assert_eq!(session.step(Some(9)), SessionAction::Finish(Err(Error::Os(7))));
}

#[test]
fn session_failed_detach_surfaces_its_error() {
    let (mut session, _) = FocusSession::start();
    assert_eq!(session.step(None), SessionAction::PopFocus);
    assert_eq!(session.step(None), SessionAction::PopFocus);
    assert_eq!(session.step(None), SessionAction::PopFocus);
    assert_eq!(session.step(None), SessionAction::DetachInput);
    assert_eq!(session.step(Some(3)), SessionAction::Finish(Err(Error::Os(3))));
}

#[test]
fn substring_containment_is_case_sensitive() {
    assert!(contains_str("Visual Studio Code", "Code"));
    assert!(!contains_str("Visual Studio Code", "code"));
    assert!(contains_str("anything", ""));
    assert!(!contains_str("", "x"));
    assert!(contains_str("", ""));
}

#[test]
fn string_order_is_lexicographic() {
    assert!(str_le("alpha.exe", "zeta.exe"));
    assert!(!str_le("zeta.exe", "alpha.exe"));
    assert!(str_le("same", "same"));
    assert!(str_le("ab", "abc"));
    assert!(!str_le("abc", "ab"));
}

#[test]
fn numbers_render_in_decimal() {
    assert_eq!(u32_to_string(0), "0");
    assert_eq!(u32_to_string(5), "5");
    assert_eq!(u32_to_string(10), "10");
    assert_eq!(u32_to_string(123), "123");
    assert_eq!(u32_to_string(u32::MAX), "4294967295");
}
