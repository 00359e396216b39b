use std::cmp::Ordering;

use dice_combos::combination::{Combination, DiceError};

fn classify(faces: &[u8]) -> Combination {
    Combination::get(faces.to_vec()).unwrap()
}

#[test]
fn strike_of_twos() {
    let c = classify(&[2, 2, 2]);
    assert_eq!(c, Combination::Strike(2));
    assert_eq!(c.score(), 2);
}

#[test]
fn ace_of_five() {
    let c = classify(&[1, 1, 5]);
    assert_eq!(c, Combination::Ace(5));
    assert_eq!(c.score(), 5);
}

#[test]
fn strike_of_ones_before_ace() {
    let c = classify(&[1, 1, 1]);
    assert_eq!(c, Combination::Strike(1));
    assert_eq!(c.score(), 7);
}

#[test]
fn four_two_one_of_three() {
    let c = classify(&[4, 2, 1]);
    assert_eq!(c, Combination::FourTwoOne(3));
    assert_eq!(c.score(), 10);
}

#[test]
fn straight_two_to_four() {
    let c = classify(&[2, 3, 4]);
    assert_eq!(c, Combination::Straight(4, 3));
    assert_eq!(c.score(), 4);
}

#[test]
fn high_roll_five_six_six() {
    let c = classify(&[5, 6, 6]);
    assert_eq!(c, Combination::HighRoll(vec![5, 6, 6]));
    assert_eq!(c.score(), 3);
}

#[test]
fn low_roll_sorted() {
    let c = classify(&[2, 1, 2]);
    assert_eq!(c, Combination::LowRoll(vec![1, 2, 2]));
    assert_eq!(c.score(), 2);
}

#[test]
fn any_keeps_sorted_faces() {
    let c = classify(&[6, 1, 3]);
    assert_eq!(c, Combination::Any(vec![1, 3, 6]));
    assert_eq!(c.score(), 1);
}

#[test]
fn three_is_neither_high_nor_low() {
    assert_eq!(classify(&[3, 3, 5]), Combination::Any(vec![3, 3, 5]));
    assert_eq!(classify(&[2, 2, 3]), Combination::Any(vec![2, 2, 3]));
    assert_eq!(classify(&[4, 4, 6]), Combination::HighRoll(vec![4, 4, 6]));
}

#[test]
fn too_few_dice_rejected() {
    assert_eq!(Combination::get(vec![]), Err(DiceError::InvalidRollLength));
    assert_eq!(Combination::get(vec![3]), Err(DiceError::InvalidRollLength));
}

#[test]
fn two_dice_are_enough() {
    assert_eq!(classify(&[3, 3]), Combination::Strike(3));
    assert_eq!(classify(&[1, 6]), Combination::Ace(6));
    assert_eq!(classify(&[5, 4]), Combination::HighRoll(vec![4, 5]));
}

#[test]
fn straight_ignores_duplicates() {
    assert_eq!(classify(&[3, 2, 2, 4]), Combination::Straight(4, 3));
}

#[test]
fn longest_straight_wins() {
    assert_eq!(classify(&[1, 2, 3, 4]), Combination::Straight(4, 4));
    assert_eq!(classify(&[6, 5, 1, 4, 3]), Combination::Straight(6, 4));
}

#[test]
fn first_of_equal_straights_kept() {
    assert_eq!(classify(&[1, 2, 3, 5, 6, 7]), Combination::Straight(3, 3));
}

#[test]
fn straight_before_four_two_one() {
    assert_eq!(classify(&[1, 2, 3, 4]), Combination::Straight(4, 4));
    assert_eq!(classify(&[4, 2, 1, 2]), Combination::FourTwoOne(4));
}

#[test]
fn four_two_one_score_formula() {
    assert_eq!(Combination::FourTwoOne(3).score(), 10);
    assert_eq!(Combination::FourTwoOne(4).score(), 7);
    assert_eq!(Combination::FourTwoOne(5).score(), 6);
    assert_eq!(Combination::FourTwoOne(6).score(), 5);
}

#[test]
fn score_table() {
    assert_eq!(Combination::Strike(6).score(), 6);
    assert_eq!(Combination::Ace(3).score(), 3);
    assert_eq!(Combination::Straight(6, 5).score(), 4);
    assert_eq!(Combination::HighRoll(vec![4, 4, 4]).score(), 3);
    assert_eq!(Combination::LowRoll(vec![1, 2, 2]).score(), 2);
    assert_eq!(Combination::Any(vec![1, 3, 6]).score(), 1);
}

#[test]
fn permutations_classify_alike() {
    let rolls: [[u8; 3]; 6] = [[4, 2, 1], [4, 1, 2], [2, 4, 1], [2, 1, 4], [1, 4, 2], [1, 2, 4]];
    for r in rolls.iter() {
        assert_eq!(classify(r), Combination::FourTwoOne(3));
    }
    assert_eq!(classify(&[6, 5, 6]), classify(&[6, 6, 5]));
    assert_eq!(classify(&[3, 1, 6]), classify(&[6, 3, 1]));
    assert_eq!(classify(&[5, 1, 1]), classify(&[1, 5, 1]));
}

#[test]
fn compare_is_a_total_order_on_samples() {
    let all = vec![
        Combination::Any(vec![1, 3, 6]),
        Combination::Any(vec![1, 3, 5]),
        Combination::LowRoll(vec![1, 2, 2]),
        Combination::HighRoll(vec![4, 5, 6]),
        Combination::Straight(4, 3),
        Combination::Straight(6, 3),
        Combination::Straight(5, 4),
        Combination::Strike(1),
        Combination::Strike(2),
        Combination::Strike(6),
        Combination::Ace(2),
        Combination::Ace(6),
        Combination::FourTwoOne(3),
        Combination::FourTwoOne(4),
    ];
    for a in all.iter() {
        assert_eq!(a.compare(a), Ordering::Equal);
        for b in all.iter() {
            assert_eq!(a.compare(b), b.compare(a).reverse());
            for c in all.iter() {
                if a.compare(b) != Ordering::Greater && b.compare(c) != Ordering::Greater {
                    assert_ne!(a.compare(c), Ordering::Greater);
                }
            }
        }
    }
}

#[test]
fn higher_score_outranks() {
    assert_eq!(Combination::FourTwoOne(3).compare(&Combination::Strike(1)), Ordering::Greater);
    assert_eq!(Combination::Strike(1).compare(&Combination::Strike(6)), Ordering::Greater);
    assert_eq!(Combination::Straight(6, 6).compare(&Combination::HighRoll(vec![6, 6, 6])), Ordering::Greater);
    assert_eq!(Combination::Any(vec![6, 6, 5]).compare(&Combination::LowRoll(vec![1, 1, 2])), Ordering::Less);
    assert_eq!(Combination::Ace(2).compare(&Combination::Straight(6, 3)), Ordering::Less);
}

#[test]
fn equal_scores_break_by_kind_then_value() {
    assert_eq!(Combination::Strike(2).compare(&Combination::Ace(2)), Ordering::Less);
    assert_eq!(Combination::Ace(5).compare(&Combination::Strike(5)), Ordering::Greater);
    assert_eq!(Combination::Straight(4, 3).compare(&Combination::Ace(4)), Ordering::Less);
    assert_eq!(Combination::FourTwoOne(4).compare(&Combination::Strike(1)), Ordering::Greater);
    assert_eq!(Combination::Any(vec![1, 3, 6]).compare(&Combination::Any(vec![1, 3, 5])), Ordering::Greater);
    assert_eq!(Combination::Any(vec![1, 3, 6]).compare(&Combination::Any(vec![2, 3, 5])), Ordering::Equal);
    assert_eq!(Combination::HighRoll(vec![4, 4, 5]).compare(&Combination::HighRoll(vec![4, 5, 5])), Ordering::Less);
    assert_eq!(Combination::LowRoll(vec![2, 2, 2]).compare(&Combination::LowRoll(vec![1, 1, 2])), Ordering::Greater);
    assert_eq!(Combination::Straight(5, 4).compare(&Combination::Straight(6, 3)), Ordering::Greater);
    assert_eq!(Combination::Straight(6, 3).compare(&Combination::Straight(5, 3)), Ordering::Greater);
    assert_eq!(Combination::Ace(3).compare(&Combination::Ace(3)), Ordering::Equal);
}

#[test]
fn kind_indices_are_distinct() {
    let kinds = [
        Combination::Any(vec![1, 3]).kind_index(),
        Combination::LowRoll(vec![1, 2]).kind_index(),
        Combination::HighRoll(vec![4, 5]).kind_index(),
        Combination::Straight(3, 3).kind_index(),
        Combination::Strike(1).kind_index(),
        Combination::Ace(2).kind_index(),
        Combination::FourTwoOne(3).kind_index(),
    ];
    assert_eq!(kinds, [0, 1, 2, 3, 4, 5, 6]);
}

#[test]
fn display_texts() {
    assert_eq!(classify(&[2, 2, 2]).display(), "Strike of 2  [2¤]");
    assert_eq!(classify(&[1, 5, 1]).display(), "Ace of 5  [5¤]");
    assert_eq!(classify(&[4, 2, 1]).display(), "Four-Two-One!  [10¤]");
    assert_eq!(classify(&[3, 4, 2]).display(), "Straight 4,3,2  [4¤]");
    assert_eq!(classify(&[6, 5, 6]).display(), "High Roll 566  [3¤]");
    assert_eq!(classify(&[2, 1, 2]).display(), "Low Roll 122  [2¤]");
    assert_eq!(classify(&[6, 1, 3]).display(), "136  [1¤]");
    assert_eq!(classify(&[1, 1, 1]).display(), "Strike of 1  [7¤]");
}

#[test]
fn display_many_digits() {
    assert_eq!(Combination::Strike(100).display(), "Strike of 100  [100¤]");
    assert_eq!(Combination::Straight(12, 4).display(), "Straight 12,11,10,9  [4¤]");
}

#[test]
fn labels_name_the_face() {
    assert_eq!(Combination::Strike(5).display(), "Strike of 5  [5¤]");
    assert_eq!(Combination::Ace(6).display(), "Ace of 6  [6¤]");
    assert_eq!(Combination::FourTwoOne(3).display(), "Four-Two-One!  [10¤]");
}

#[test]
fn partial_order_follows_rank() {
    assert!(Combination::Strike(5) >= Combination::Strike(5));
    assert!(Combination::Ace(2) > Combination::Strike(2));
    assert!(Combination::Any(vec![6, 6, 5]) < Combination::LowRoll(vec![1, 1, 2]));
    assert_eq!(
        Combination::Any(vec![1, 3, 6]).partial_cmp(&Combination::Any(vec![2, 3, 5])),
        Some(Ordering::Equal)
    );
    assert!(Combination::Any(vec![1, 3, 6]) != Combination::Any(vec![2, 3, 5]));
}

#[test]
fn four_two_one_of_no_dice_scores_zero() {
    assert_eq!(Combination::FourTwoOne(0).score(), 0);
}
