use dice_combos::challenge::{roll_dice, Challenge, ChallengeRules, CompareMode};
use dice_combos::combination::{Combination, DiceError};

fn rules(dice_count: usize, max_attempts: u32, excluded: Vec<u8>, random_mode: bool) -> ChallengeRules {
    ChallengeRules { dice_count, max_attempts, excluded, random_mode }
}

fn challenge(target: Combination, mode: CompareMode) -> Challenge {
    Challenge { target, attempts: 1, mode }
}

#[test]
fn exact_wins_only_on_equal() {
    let ch = challenge(Combination::Any(vec![1, 3, 6]), CompareMode::Exact);
    assert!(ch.is_won(&Combination::Any(vec![2, 3, 5])));
    assert!(!ch.is_won(&Combination::Any(vec![1, 3, 5])));
    assert!(!ch.is_won(&Combination::Strike(2)));
}

#[test]
fn at_least_wins_on_equal_or_above() {
    let ch = challenge(Combination::Straight(4, 3), CompareMode::AtLeast);
    assert!(ch.is_won(&Combination::Straight(4, 3)));
    assert!(ch.is_won(&Combination::Straight(5, 3)));
    assert!(ch.is_won(&Combination::Strike(5)));
    assert!(!ch.is_won(&Combination::Strike(3)));
    assert!(!ch.is_won(&Combination::HighRoll(vec![6, 6, 5])));
}

#[test]
fn strictly_greater_needs_above() {
    let ch = challenge(Combination::Strike(3), CompareMode::StrictlyGreater);
    assert!(!ch.is_won(&Combination::Strike(3)));
    assert!(ch.is_won(&Combination::Ace(3)));
    assert!(ch.is_won(&Combination::Strike(1)));
    assert!(!ch.is_won(&Combination::HighRoll(vec![6, 6, 6])));
    assert!(ch.is_won(&Combination::Straight(6, 3)));
}

#[test]
fn modes_by_index() {
    assert_eq!(CompareMode::from_index(0), CompareMode::AtLeast);
    assert_eq!(CompareMode::from_index(1), CompareMode::StrictlyGreater);
    assert_eq!(CompareMode::from_index(2), CompareMode::Exact);
    assert_eq!(CompareMode::from_index(7), CompareMode::Exact);
}

#[test]
fn target_of_roll_rejects_any() {
    let r = rules(3, 10, vec![], false);
    assert_eq!(Challenge::target_of_roll(&r, vec![6, 1, 3]), Ok(None));
    assert_eq!(Challenge::target_of_roll(&r, vec![2, 2, 2]), Ok(Some(Combination::Strike(2))));
    assert_eq!(Challenge::target_of_roll(&r, vec![2, 1, 2]), Ok(Some(Combination::LowRoll(vec![1, 2, 2]))));
}

#[test]
fn target_of_roll_rejects_excluded_kinds() {
    let r = rules(3, 10, vec![1, 4], false);
    assert_eq!(Challenge::target_of_roll(&r, vec![2, 2, 2]), Ok(None));
    assert_eq!(Challenge::target_of_roll(&r, vec![2, 1, 2]), Ok(None));
    assert_eq!(Challenge::target_of_roll(&r, vec![1, 1, 4]), Ok(Some(Combination::Ace(4))));
}

#[test]
fn target_of_short_roll_fails() {
    let r = rules(3, 10, vec![], false);
    assert_eq!(Challenge::target_of_roll(&r, vec![5]), Err(DiceError::InvalidRollLength));
}

#[test]
fn generate_rejects_short_rolls() {
    assert_eq!(Challenge::generate(&rules(1, 100, vec![], false)), Err(DiceError::InvalidRollLength));
}

#[test]
fn generate_without_attempts_fails() {
    assert_eq!(
        Challenge::generate(&rules(3, 0, vec![], false)),
        Err(DiceError::DegenerateChallengeGeneration)
    );
}

#[test]
fn generate_with_every_kind_excluded_fails() {
    assert_eq!(
        Challenge::generate(&rules(3, 50, vec![1, 2, 3, 4, 5, 6], false)),
        Err(DiceError::DegenerateChallengeGeneration)
    );
}

#[test]
fn generate_finds_a_target() {
    let r = rules(3, 10_000, vec![], false);
    let ch = Challenge::generate(&r).unwrap();
    assert_ne!(ch.target.kind_index(), 0);
    assert!(ch.attempts >= 1 && ch.attempts <= 10_000);
    assert_eq!(ch.mode, CompareMode::AtLeast);
}

#[test]
fn generate_only_allowed_kinds() {
    let r = rules(3, 100_000, vec![1, 2, 3, 5, 6], true);
    for _ in 0..20 {
        let ch = Challenge::generate(&r).unwrap();
        assert!(matches!(ch.target, Combination::Strike(_)));
    }
}

#[test]
fn rolled_faces_are_dice_faces() {
    let v = roll_dice(300);
    assert_eq!(v.len(), 300);
    assert!(v.iter().all(|&f| (1..=6).contains(&f)));
    assert!(v.iter().any(|&f| f != v[0]));
    assert!(v.iter().any(|&f| f != 1));
}

#[test]
fn after_draw_accepts_eligible_roll() {
    let r = rules(3, 5, vec![], false);
    assert_eq!(Challenge::after_draw(&r, 5, vec![1, 5, 1]), Ok(Some(Combination::Ace(5))));
}

#[test]
fn after_draw_asks_for_another_roll() {
    let r = rules(3, 5, vec![], false);
    assert_eq!(Challenge::after_draw(&r, 4, vec![6, 1, 3]), Ok(None));
}

#[test]
fn after_draw_gives_up_after_the_last_attempt() {
    let r = rules(3, 5, vec![4], false);
    assert_eq!(
        Challenge::after_draw(&r, 5, vec![2, 2, 2]),
        Err(DiceError::DegenerateChallengeGeneration)
    );
}

#[test]
fn judge_by_mode() {
    let a = Combination::Any(vec![1, 3, 6]);
    let b = Combination::Any(vec![2, 3, 5]);
    assert!(CompareMode::Exact.judge(&a, &b));
    assert!(CompareMode::AtLeast.judge(&a, &b));
    assert!(!CompareMode::StrictlyGreater.judge(&a, &b));
}
