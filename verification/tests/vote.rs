use mute_puck::state::State;

#[test]
fn fold_empty_is_silent() {
    let flags: Vec<bool> = vec![];
    assert_eq!(State::from_bools(&flags), State::Silent);
}

#[test]
fn fold_single_true_is_muted() {
    assert_eq!(State::from_bools(&vec![true]), State::Muted);
}

#[test]
fn fold_single_false_is_unmuted() {
    assert_eq!(State::from_bools(&vec![false]), State::Unmuted);
}

#[test]
fn fold_disagreement_is_confused() {
    assert_eq!(State::from_bools(&vec![true, false]), State::Confused);
}

#[test]
fn fold_unanimous_true_is_muted() {
    assert_eq!(State::from_bools(&vec![true, true]), State::Muted);
}

#[test]
fn fold_unanimous_false_is_unmuted() {
    assert_eq!(State::from_bools(&vec![false, false, false]), State::Unmuted);
}

#[test]
fn fold_is_order_independent() {
    let perms: &[Vec<bool>] = &[
        vec![true, false, false],
        vec![false, true, false],
        vec![false, false, true],
    ];
    for flags in perms {
        assert_eq!(State::from_bools(flags), State::Confused);
    }
    let muted_perms: &[Vec<bool>] = &[vec![true, true, true], vec![true, true, true]];
    for flags in muted_perms {
        assert_eq!(State::from_bools(flags), State::Muted);
    }
}

#[test]
fn fold_confused_is_absorbing_within_a_fixed_set() {
    assert_eq!(State::from_bools(&vec![true, false, true, true]), State::Confused);
    assert_eq!(State::from_bools(&vec![false, true, false, false]), State::Confused);
}

#[test]
fn is_muted_concrete_only() {
    assert_eq!(State::Muted.is_muted(), Some(true));
    assert_eq!(State::Unmuted.is_muted(), Some(false));
    assert_eq!(State::Silent.is_muted(), None);
    assert_eq!(State::Confused.is_muted(), None);
}
