use rust_pom::input::{classify_key, EventOutcome};

#[test]
fn plain_p_toggles_pause() {
    assert_eq!(classify_key(Some('p'), false), EventOutcome::PauseToggled);
}

#[test]
fn control_p_is_ignored() {
    assert_eq!(classify_key(Some('p'), true), EventOutcome::Continue);
}

#[test]
fn control_c_exits() {
    assert_eq!(classify_key(Some('c'), true), EventOutcome::Exit);
}

#[test]
fn plain_c_is_ignored() {
    assert_eq!(classify_key(Some('c'), false), EventOutcome::Continue);
}

#[test]
fn other_keys_and_no_key_are_ignored() {
    assert_eq!(classify_key(Some('x'), false), EventOutcome::Continue);
    assert_eq!(classify_key(Some('P'), false), EventOutcome::Continue);
    assert_eq!(classify_key(None, false), EventOutcome::Continue);
    assert_eq!(classify_key(None, true), EventOutcome::Continue);
}
