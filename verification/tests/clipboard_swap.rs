use helix_win_runner::clipboard::Clipboard;

#[test]
fn swap_cycle_restores_prior_content() {
    let mut clip = Clipboard::from_state(Some((13, b"hello".to_vec())));
    let snapshot = clip.save();
    assert!(snapshot.has_snapshot());
    clip.set(13, b"world".to_vec());
    assert_eq!(clip.content(), &Some((13, b"world".to_vec())));
    clip.restore(snapshot);
    assert_eq!(clip.content(), &Some((13, b"hello".to_vec())));
}

#[test]
fn swap_cycle_restores_format_identifier_too() {
    let mut clip = Clipboard::from_state(Some((2, vec![0xde, 0xad])));
    let snapshot = clip.save();
    clip.set(13, b"payload".to_vec());
    clip.restore(snapshot);
    assert_eq!(clip.content(), &Some((2, vec![0xde, 0xad])));
}

#[test]
fn empty_clipboard_yields_empty_snapshot() {
    let mut clip = Clipboard::from_state(None);
    let snapshot = clip.save();
    assert!(!snapshot.has_snapshot());
    clip.set(13, b"payload".to_vec());
    clip.restore(snapshot);
    assert_eq!(clip.content(), &Some((13, b"payload".to_vec())));
}
