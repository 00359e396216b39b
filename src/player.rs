use vstd::prelude::*;

use crate::game::RetriesLeft;

verus! {

/// The mouse button of a click.
#[derive(Clone, Copy, Debug, PartialEq, Eq)]
pub enum ClickType {
    Left,
    Right,
}

/// What a ray cast from a click went through, nearest first.
#[derive(Clone, Copy, Debug, PartialEq, Eq)]
pub enum RayHit {
    /// A die of the player still in hand, by its number.
    DiceInHand(usize),
    /// A die of the player lying on the table, by its number.
    DiceOnTable(usize),
    /// The table.
    Table,
    /// Anything else.
    Other,
}

/// What a click does.
#[derive(Clone, Copy, Debug, PartialEq, Eq)]
pub enum ClickOutcome {
    /// The die in hand becomes the selected one.
    Select(usize),
    /// The die on the table goes back to the hand, at the cost of a retry.
    PickUp(usize),
    /// The selected die is thrown at the point where the table was hit.
    Throw,
    /// Nothing happens.
    Nothing,
}

/// Whether a hit decides the click.
pub open spec fn decides(h: RayHit, click: ClickType, retries: u8, selected: bool) -> bool {
    match h {
        RayHit::DiceInHand(_) => true,
        RayHit::DiceOnTable(_) => retries > 0 && click == ClickType::Right,
        RayHit::Table => selected,
        RayHit::Other => false,
    }
}

/// What a deciding hit does.
pub open spec fn outcome_of(h: RayHit) -> ClickOutcome {
    match h {
        RayHit::DiceInHand(e) => ClickOutcome::Select(e),
        RayHit::DiceOnTable(e) => ClickOutcome::PickUp(e),
        RayHit::Table => ClickOutcome::Throw,
        RayHit::Other => ClickOutcome::Nothing,
    }
}

/// What a click does: the nearest hit that decides it, if any.
pub open spec fn click_outcome(hits: Seq<RayHit>, click: ClickType, retries: u8, selected: bool) -> ClickOutcome
    decreases hits.len(),
{
    if hits.len() == 0 {
        ClickOutcome::Nothing
    } else if decides(hits[0], click, retries, selected) {
        outcome_of(hits[0])
    } else {
        click_outcome(hits.drop_first(), click, retries, selected)
    }
}

/// Decides what a click does from what its ray hit, nearest first: a die in
/// hand is selected; with the right button and a retry left, a die on the
/// table goes back to the hand and uses up the retry; the table receives
/// the throw of the selected die, if there is one.
pub fn raycast_dices(
    hits: &Vec<RayHit>,
    click: ClickType,
    retries: &mut RetriesLeft,
    selected: bool,
) -> (r: ClickOutcome)
    ensures
        r == click_outcome(hits@, click, old(retries).0, selected),
        final(retries).0 == if r is PickUp {
            (old(retries).0 - 1) as u8
        } else {
            old(retries).0
        },
{
    let mut i: usize = 0;
    assert(hits@.subrange(0, hits@.len() as int) =~= hits@);
    while i < hits.len()
        invariant
            i <= hits@.len(),
            *retries == *old(retries),
            click_outcome(hits@, click, retries.0, selected) == click_outcome(
                hits@.subrange(i as int, hits@.len() as int),
                click,
                retries.0,
                selected,
            ),
        decreases hits.len() - i,
    {
        let h = hits[i];
        assert(hits@.subrange(i as int, hits@.len() as int)[0] == h);
        assert(hits@.subrange(i as int, hits@.len() as int).drop_first() =~= hits@.subrange(
            i + 1,
            hits@.len() as int,
        ));
        match h {
            RayHit::DiceInHand(e) => {
                return ClickOutcome::Select(e);
            },
            RayHit::DiceOnTable(e) => {
                if retries.0 > 0 && matches!(click, ClickType::Right) {
                    retries.0 = retries.0 - 1;
                    return ClickOutcome::PickUp(e);
                }
            },
            RayHit::Table => {
                if selected {
                    return ClickOutcome::Throw;
                }
            },
            RayHit::Other => {},
        }
        i = i + 1;
    }
    ClickOutcome::Nothing
}

/// The die to select after `thrown` has left the hand: the first die of
/// `in_hand` other than it, or none if there is no other.
pub fn next_selection(in_hand: &Vec<usize>, thrown: usize) -> (r: Option<usize>)
    ensures
        r is None <==> forall|i: int| 0 <= i < in_hand@.len() ==> in_hand@[i] == thrown,
        r matches Some(e) ==> exists|i: int|
            0 <= i < in_hand@.len() && in_hand@[i] == e && e != thrown && forall|j: int|
                0 <= j < i ==> in_hand@[j] == thrown,
{
    let mut i: usize = 0;
    while i < in_hand.len()
        invariant
            i <= in_hand@.len(),
            forall|j: int| 0 <= j < i ==> in_hand@[j] == thrown,
        decreases in_hand.len() - i,
    {
        if in_hand[i] != thrown {
            return Some(in_hand[i]);
        }
        i = i + 1;
    }
    None
}

} // verus!
