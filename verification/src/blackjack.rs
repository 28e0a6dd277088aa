use vstd::prelude::*;

use crate::card::{
    Card, hand_value, spec_hand_value, spec_nominal_sum, spec_num_aces, lemma_num_aces_bounds,
    lemma_push_card, lemma_reduce_lower_bound,
};
use crate::game_action::{
    GameAction, PlayerActionResult, can_double_down, can_split, can_surrender,
    spec_can_double_down, spec_can_split, spec_can_surrender, spec_valid_actions,
};

verus! {

/// The actions offered to a hand: double down, split and surrender only at
/// the hand's first decision point, and each only where the hand allows it.
pub open spec fn spec_offered_actions(hand: Seq<Card>, is_first_turn: bool) -> Seq<GameAction> {
    spec_valid_actions(
        is_first_turn && spec_can_double_down(hand),
        is_first_turn && spec_can_split(hand),
        is_first_turn && spec_can_surrender(hand),
    )
}

/// A hand already at 21 or more is stood automatically, with no choice
/// offered.
pub fn must_stand(hand: &Vec<Card>) -> (r: bool)
    requires
        spec_nominal_sum(hand@) <= 255,
    ensures
        r == (spec_hand_value(hand@) >= 21),
{
    hand_value(hand) >= 21
}

/// One step of the player turn state machine: the player has picked the menu
/// entry `selection`; the corresponding action (if any) is applied to the
/// hand and the deck. A selection outside the menu, a split without two
/// cards left in the deck, and a hit from an empty deck all leave the state
/// unchanged and ask to be re-prompted (`Continue`).
pub fn player_turn_step(
    deck: &mut Vec<Card>,
    hand: &mut Vec<Card>,
    is_first_turn: bool,
    selection: usize,
) -> (result: PlayerActionResult)
    ensures
        ({
            let offered = spec_offered_actions(old(hand)@, is_first_turn);
            let unchanged = final(hand)@ == old(hand)@ && final(deck)@ == old(deck)@;
            &&& selection >= offered.len() ==> result is Continue && unchanged
            &&& selection < offered.len() ==> match offered[selection as int] {
                GameAction::Hit => {
                    &&& result is Continue
                    &&& old(deck)@.len() > 0 ==> final(hand)@ == old(hand)@.push(old(deck)@.last())
                        && final(deck)@ == old(deck)@.drop_last()
                    &&& old(deck)@.len() == 0 ==> unchanged
                },
                GameAction::Stand => result is Stand && unchanged,
                GameAction::DoubleDown => {
                    &&& old(deck)@.len() > 0 ==> result is DoubleDown && final(hand)@ == old(
                        hand,
                    )@.push(old(deck)@.last()) && final(deck)@ == old(deck)@.drop_last()
                    &&& old(deck)@.len() == 0 ==> result is Stand && unchanged
                },
                GameAction::Split => {
                    &&& old(deck)@.len() >= 2 ==> (result matches PlayerActionResult::Split(h1, h2)
                        && h1@ == seq![old(hand)@[0], old(deck)@[old(deck)@.len() - 1]] && h2@
                        == seq![old(hand)@[1], old(deck)@[old(deck)@.len() - 2]] && final(hand)@
                        == old(hand)@.take(1) && final(deck)@ == old(deck)@.take(
                        old(deck)@.len() - 2,
                    ))
                    &&& old(deck)@.len() < 2 ==> result is Continue && unchanged
                },
                GameAction::Surrender => result is Surrender && unchanged,
            }
        }),
{
    let can_double = is_first_turn && can_double_down(hand);
    let can_split_hand = is_first_turn && can_split(hand);
    let can_surrender_hand = is_first_turn && can_surrender(hand);

    let valid_actions = GameAction::get_valid_actions(
        can_double,
        can_split_hand,
        can_surrender_hand,
    );

    if selection >= valid_actions.len() {
        return PlayerActionResult::Continue;
    }
    match valid_actions[selection] {
        GameAction::Hit => {
            match deck.pop() {
                Some(card) => {
                    hand.push(card);
                },
                None => {},
            }
            PlayerActionResult::Continue
        },
        GameAction::Stand => PlayerActionResult::Stand,
        GameAction::DoubleDown => {
            match deck.pop() {
                Some(card) => {
                    hand.push(card);
                    PlayerActionResult::DoubleDown
                },
                None => PlayerActionResult::Stand,
            }
        },
        GameAction::Split => {
            if hand.len() == 2 && deck.len() >= 2 {
                let second_card = hand.pop().unwrap();
                let first_card = hand[0];

                let mut hand1: Vec<Card> = Vec::new();
                hand1.push(first_card);
                let mut hand2: Vec<Card> = Vec::new();
                hand2.push(second_card);

                if let Some(card) = deck.pop() {
                    hand1.push(card);
                }
                if let Some(card) = deck.pop() {
                    hand2.push(card);
                }
                proof {
                    assert(hand@ =~= old(hand)@.take(1));
                    assert(deck@ =~= old(deck)@.take(old(deck)@.len() - 2));
                    assert(hand1@ =~= seq![old(hand)@[0], old(deck)@[old(deck)@.len() - 1]]);
                    assert(hand2@ =~= seq![old(hand)@[1], old(deck)@[old(deck)@.len() - 2]]);
                }
                PlayerActionResult::Split(hand1, hand2)
            } else {
                PlayerActionResult::Continue
            }
        },
        GameAction::Surrender => PlayerActionResult::Surrender,
    }
}

/// Dealer policy: draw while the hand is worth less than 17; an exhausted
/// deck silently stops the drawing.
///
/// The precondition bounds the point total a dealer hand can reach so that
/// the 8-bit totals of `hand_value` cannot overflow: the dealer only draws
/// below 17, so the nominal sum stays within 27 plus 10 per ace in play.
pub fn dealer_turn(deck: &mut Vec<Card>, hand: &mut Vec<Card>)
    requires
        spec_nominal_sum(old(hand)@) <= 255,
        27 + 10 * (spec_num_aces(old(hand)@) + spec_num_aces(old(deck)@)) <= 255,
    ensures
        final(deck)@.len() <= old(deck)@.len(),
        final(deck)@ == old(deck)@.take(final(deck)@.len() as int),
        final(hand)@ == old(hand)@ + old(deck)@.skip(final(deck)@.len() as int).reverse(),
        spec_hand_value(final(hand)@) >= 17 || final(deck)@.len() == 0,
        forall|j: int|
            final(deck)@.len() < j <= old(deck)@.len() ==> spec_hand_value(
                old(hand)@ + old(deck)@.skip(j).reverse(),
            ) < 17,
        spec_hand_value(old(hand)@) >= 17 ==> final(hand)@ == old(hand)@ && final(deck)@ == old(
            deck,
        )@,
        spec_hand_value(old(hand)@) < 17 && old(deck)@.len() > 0 ==> final(deck)@.len() < old(
            deck,
        )@.len(),
        spec_nominal_sum(final(hand)@) <= 255,
{
    let ghost d0 = old(deck)@;
    let ghost h0 = old(hand)@;
    let ghost total_aces = spec_num_aces(h0) + spec_num_aces(d0);
    proof {
        assert(h0 + d0.skip(d0.len() as int).reverse() =~= h0);
    }
    while deck.len() > 0 && hand_value(hand) < 17
        invariant
            spec_nominal_sum(hand@) <= 255,
            spec_num_aces(hand@) + spec_num_aces(deck@) == total_aces,
            27 + 10 * total_aces <= 255,
            deck@.len() <= d0.len(),
            deck@ == d0.take(deck@.len() as int),
            hand@ == h0 + d0.skip(deck@.len() as int).reverse(),
            forall|j: int|
                deck@.len() < j <= d0.len() ==> spec_hand_value(h0 + d0.skip(j).reverse()) < 17,
        decreases deck@.len(),
    {
        let ghost k = deck@.len() as int;
        proof {
            lemma_num_aces_bounds(deck@);
            lemma_num_aces_bounds(hand@);
            lemma_reduce_lower_bound(spec_nominal_sum(hand@), spec_num_aces(hand@));
        }
        let card = deck.pop().unwrap();
        proof {
            assert(deck@ =~= d0.take(k - 1));
            lemma_push_card(hand@, card);
            assert(hand@.push(card) =~= h0 + d0.skip(k - 1).reverse());
        }
        hand.push(card);
    }
    proof {
        if spec_hand_value(h0) >= 17 && deck@.len() < d0.len() {
            assert(spec_hand_value(h0 + d0.skip(d0.len() as int).reverse()) < 17);
        }
        if spec_hand_value(h0) < 17 && d0.len() > 0 && deck@.len() == d0.len() {
            assert(hand@ =~= h0);
        }
    }
}

} // verus!
