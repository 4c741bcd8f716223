use game_engine::roles::LoversState;
use game_engine::PlayerId;

#[test]
fn two_linked_survivors_win_as_lovers() {
    let mut lovers = LoversState::default();
    lovers.link(PlayerId(1), PlayerId(2));
    assert!(lovers.is_lovers_win(&[PlayerId(1), PlayerId(2)]));
    assert!(lovers.is_lovers_win(&[PlayerId(2), PlayerId(1)]));
}

#[test]
fn unlinked_pair_does_not_win_as_lovers() {
    let lovers = LoversState::default();
    assert!(!lovers.is_lovers_win(&[PlayerId(1), PlayerId(2)]));
}

#[test]
fn a_third_survivor_rules_out_lovers_win_even_if_linked() {
    let mut lovers = LoversState::default();
    lovers.link(PlayerId(1), PlayerId(2));
    assert!(!lovers.is_lovers_win(&[PlayerId(1), PlayerId(2), PlayerId(3)]));
}
