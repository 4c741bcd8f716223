use game_engine::roles::lovers::LOVERS_WIN_TEAM;
use game_engine::roles::LoversState;
use game_engine::{PlayerId, Team};

#[test]
fn linking_makes_each_the_others_partner() {
    let mut lovers = LoversState::new();
    assert_eq!(lovers.partner_of(PlayerId(1)), None);
    lovers.link(PlayerId(1), PlayerId(2));
    assert_eq!(lovers.partner_of(PlayerId(1)), Some(PlayerId(2)));
    assert_eq!(lovers.partner_of(PlayerId(2)), Some(PlayerId(1)));
    assert_eq!(lovers.partner_of(PlayerId(3)), None);
}

#[test]
fn a_later_link_never_changes_an_existing_partner() {
    let mut lovers = LoversState::new();
    lovers.link(PlayerId(1), PlayerId(2));
    lovers.link(PlayerId(2), PlayerId(3));
    assert_eq!(lovers.partner_of(PlayerId(2)), Some(PlayerId(1)));
    assert_eq!(lovers.partner_of(PlayerId(3)), Some(PlayerId(2)));
}

#[test]
fn a_lovers_win_needs_exactly_two_linked_survivors() {
    let mut lovers = LoversState::default();
    lovers.link(PlayerId(5), PlayerId(6));
    assert!(!lovers.is_lovers_win(&[]));
    assert!(!lovers.is_lovers_win(&[PlayerId(5)]));
    assert!(lovers.is_lovers_win(&[PlayerId(6), PlayerId(5)]));
    assert!(!lovers.is_lovers_win(&[PlayerId(5), PlayerId(7)]));
    assert_eq!(LOVERS_WIN_TEAM, Team::Lovers);
}

#[test]
fn a_lovers_win_needs_both_survivors_in_love_with_each_other() {
    let mut lovers = LoversState::default();
    lovers.link(PlayerId(1), PlayerId(2));
    lovers.link(PlayerId(3), PlayerId(1));
    // 3's partner is 1, but 1's partner is 2: not mutual, in either order
    assert!(!lovers.is_lovers_win(&[PlayerId(1), PlayerId(3)]));
    assert!(!lovers.is_lovers_win(&[PlayerId(3), PlayerId(1)]));
    assert!(lovers.is_lovers_win(&[PlayerId(2), PlayerId(1)]));
}
