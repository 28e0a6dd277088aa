use vstd::prelude::*;
use vstd::pervasive::VecAdditionalExecFns;

use crate::card::{
    Card, hand_value, is_blackjack, spec_hand_value, spec_is_blackjack, spec_nominal_sum,
};
use crate::game_action::PlayerActionResult;

verus! {

/// How one player hand fares against the dealer.
#[derive(Debug, Clone, Copy, PartialEq, Eq, Structural)]
pub enum HandOutcome {
    Win,
    Loss,
    Push,
}

/// Settlement of one player hand against the final dealer hand: a busted
/// player loses outright; otherwise a busted dealer loses; otherwise a lone
/// blackjack wins; otherwise the higher total wins, and an equal total is a
/// push unless a positive player edge turns the tie into a player win.
pub open spec fn spec_hand_outcome(
    player: Seq<Card>,
    dealer: Seq<Card>,
    player_edge_positive: bool,
) -> HandOutcome {
    let pv = spec_hand_value(player);
    let dv = spec_hand_value(dealer);
    let player_bj = spec_is_blackjack(player);
    let dealer_bj = spec_is_blackjack(dealer);
    if pv > 21 {
        HandOutcome::Loss
    } else if dv > 21 {
        HandOutcome::Win
    } else if player_bj && !dealer_bj {
        HandOutcome::Win
    } else if !player_bj && dealer_bj {
        HandOutcome::Loss
    } else if player_bj && dealer_bj {
        HandOutcome::Push
    } else if pv > dv {
        HandOutcome::Win
    } else if pv < dv {
        HandOutcome::Loss
    } else if player_edge_positive {
        HandOutcome::Win
    } else {
        HandOutcome::Push
    }
}

/// A won hand pays the base bet, a lost hand costs it, a push moves nothing.
pub open spec fn spec_hand_payout(outcome: HandOutcome, bet: u32) -> int {
    match outcome {
        HandOutcome::Win => bet as int,
        HandOutcome::Loss => -(bet as int),
        HandOutcome::Push => 0,
    }
}

/// Aggregate payout: every hand is settled independently against the same
/// dealer hand, each at the flat base bet.
pub open spec fn spec_round_payout(
    hands: Seq<Seq<Card>>,
    dealer: Seq<Card>,
    player_edge_positive: bool,
    bet: u32,
) -> int
    decreases hands.len(),
{
    if hands.len() == 0 {
        0
    } else {
        spec_round_payout(hands.drop_last(), dealer, player_edge_positive, bet)
            + spec_hand_payout(
            spec_hand_outcome(hands.last(), dealer, player_edge_positive),
            bet,
        )
    }
}

proof fn lemma_round_payout_bound(
    hands: Seq<Seq<Card>>,
    dealer: Seq<Card>,
    player_edge_positive: bool,
    bet: u32,
)
    ensures
        -(hands.len() * bet) <= spec_round_payout(hands, dealer, player_edge_positive, bet)
            <= hands.len() * bet,
    decreases hands.len(),
{
    if hands.len() > 0 {
        lemma_round_payout_bound(hands.drop_last(), dealer, player_edge_positive, bet);
        assert((hands.len() - 1) * bet == hands.len() * bet - bet) by (nonlinear_arith);
    }
}

/// Settles one player hand against the final dealer hand.
pub fn hand_outcome(player: &Vec<Card>, dealer: &Vec<Card>, player_edge_positive: bool) -> (outcome:
    HandOutcome)
    requires
        spec_nominal_sum(player@) <= 255,
        spec_nominal_sum(dealer@) <= 255,
    ensures
        outcome == spec_hand_outcome(player@, dealer@, player_edge_positive),
{
    let pv = hand_value(player);
    let dv = hand_value(dealer);
    let player_bj = is_blackjack(player);
    let dealer_bj = is_blackjack(dealer);
    if pv > 21 {
        HandOutcome::Loss
    } else if dv > 21 {
        HandOutcome::Win
    } else if player_bj && !dealer_bj {
        HandOutcome::Win
    } else if !player_bj && dealer_bj {
        HandOutcome::Loss
    } else if player_bj && dealer_bj {
        HandOutcome::Push
    } else if pv > dv {
        HandOutcome::Win
    } else if pv < dv {
        HandOutcome::Loss
    } else if player_edge_positive {
        HandOutcome::Win
    } else {
        HandOutcome::Push
    }
}

/// The money a single hand's outcome moves, signed from the player's side.
pub fn hand_payout(outcome: HandOutcome, bet: u32) -> (p: i64)
    ensures
        p == spec_hand_payout(outcome, bet),
{
    match outcome {
        HandOutcome::Win => bet as i64,
        HandOutcome::Loss => -(bet as i64),
        HandOutcome::Push => 0,
    }
}

/// Settles every player hand against the final dealer hand and sums the
/// signed payouts, each hand at the same flat base bet.
pub fn settle_round(
    hands: &Vec<Vec<Card>>,
    dealer: &Vec<Card>,
    player_edge_positive: bool,
    bet: u32,
) -> (total: i64)
    requires
        forall|i: int| 0 <= i < hands@.len() ==> spec_nominal_sum(hands@[i]@) <= 255,
        spec_nominal_sum(dealer@) <= 255,
        hands@.len() * bet <= i64::MAX,
    ensures
        total == spec_round_payout(
            hands@.map_values(|h: Vec<Card>| h@),
            dealer@,
            player_edge_positive,
            bet,
        ),
{
    let ghost model = hands@.map_values(|h: Vec<Card>| h@);
    let mut total: i64 = 0;
    let mut i: usize = 0;
    while i < hands.len()
        invariant
            i <= hands@.len(),
            forall|j: int| 0 <= j < hands@.len() ==> spec_nominal_sum(hands@[j]@) <= 255,
            spec_nominal_sum(dealer@) <= 255,
            hands@.len() * bet <= i64::MAX,
            model == hands@.map_values(|h: Vec<Card>| h@),
            total == spec_round_payout(model.take(i as int), dealer@, player_edge_positive, bet),
        decreases hands@.len() - i,
    {
        proof {
            lemma_round_payout_bound(model.take(i as int), dealer@, player_edge_positive, bet);
            assert((i + 1) * bet <= hands@.len() * bet) by (nonlinear_arith)
                requires
                    0 <= i + 1 <= hands@.len(),
            ;
            assert((i + 1) * bet == i * bet + bet) by (nonlinear_arith);
            assert(model.take(i + 1).drop_last() =~= model.take(i as int));
        }
        let outcome = hand_outcome(&hands[i], dealer, player_edge_positive);
        total = total + hand_payout(outcome, bet);
        i = i + 1;
    }
    proof {
        assert(model.take(i as int) =~= model);
    }
    total
}

/// True iff every player hand has busted; in that case the dealer does not
/// draw at all.
pub fn all_hands_bust(hands: &Vec<Vec<Card>>) -> (r: bool)
    requires
        forall|i: int| 0 <= i < hands@.len() ==> spec_nominal_sum(hands@[i]@) <= 255,
    ensures
        r == forall|i: int| 0 <= i < hands@.len() ==> spec_hand_value(hands@[i]@) > 21,
{
    let mut i: usize = 0;
    while i < hands.len()
        invariant
            i <= hands@.len(),
            forall|j: int| 0 <= j < hands@.len() ==> spec_nominal_sum(hands@[j]@) <= 255,
            forall|j: int| 0 <= j < i ==> spec_hand_value(hands@[j]@) > 21,
        decreases hands@.len() - i,
    {
        if hand_value(&hands[i]) <= 21 {
            return false;
        }
        i = i + 1;
    }
    true
}

/// The opening deal, in the table's order: one card to the player, one to
/// the dealer, a second to the player, a second to the dealer, all drawn
/// from the back of the deck.
pub fn deal_initial(deck: &mut Vec<Card>) -> (hands: (Vec<Card>, Vec<Card>))
    requires
        old(deck)@.len() >= 4,
    ensures
        ({
            let n = old(deck)@.len() as int;
            &&& hands.0@ == seq![old(deck)@[n - 1], old(deck)@[n - 3]]
            &&& hands.1@ == seq![old(deck)@[n - 2], old(deck)@[n - 4]]
            &&& final(deck)@ == old(deck)@.take(n - 4)
        }),
{
    let mut player_hand: Vec<Card> = Vec::new();
    let mut dealer_hand: Vec<Card> = Vec::new();
    player_hand.push(deck.pop().unwrap());
    dealer_hand.push(deck.pop().unwrap());
    player_hand.push(deck.pop().unwrap());
    dealer_hand.push(deck.pop().unwrap());
    proof {
        let n = old(deck)@.len() as int;
        assert(player_hand@ =~= seq![old(deck)@[n - 1], old(deck)@[n - 3]]);
        assert(dealer_hand@ =~= seq![old(deck)@[n - 2], old(deck)@[n - 4]]);
        assert(deck@ =~= old(deck)@.take(n - 4));
    }
    (player_hand, dealer_hand)
}

/// Settlement of the round cut short by a dealer blackjack: the player's
/// original hand pushes if it is also a blackjack and otherwise loses the
/// base bet; no further card is dealt or played.
pub fn dealer_blackjack_payout(player_hand: &Vec<Card>, bet: u32) -> (p: i64)
    ensures
        p == if spec_is_blackjack(player_hand@) {
            0int
        } else {
            -(bet as int)
        },
{
    if is_blackjack(player_hand) {
        0
    } else {
        -(bet as i64)
    }
}

/// The player's side of a round: the growable list of hands (splits append
/// to it), the hand currently being resolved, and the money wagered so far.
pub struct Round {
    /// All player hands of the round, resolved left to right.
    pub player_hands: Vec<Vec<Card>>,
    /// Index of the hand now being resolved; the round's player phase is
    /// over once it reaches the end of `player_hands`.
    pub hand_index: usize,
    /// Total exposure: the base bet, plus one more base bet per double-down
    /// or split.
    pub total_bet: u32,
    /// The fixed wager per hand.
    pub bet_amount: u32,
}

impl Round {
    /// Opens a round on the freshly dealt player hand, wagering the base
    /// bet.
    pub fn new(initial_hand: Vec<Card>, bet_amount: u32) -> (r: Round)
        ensures
            r.player_hands@ =~= seq![initial_hand],
            r.hand_index == 0,
            r.total_bet == bet_amount,
            r.bet_amount == bet_amount,
    {
        let mut player_hands: Vec<Vec<Card>> = Vec::new();
        player_hands.push(initial_hand);
        Round { player_hands, hand_index: 0, total_bet: bet_amount, bet_amount }
    }

    /// True once every hand has been resolved.
    pub fn finished(&self) -> (r: bool)
        ensures
            r == (self.hand_index >= self.player_hands@.len()),
    {
        self.hand_index >= self.player_hands.len()
    }

    /// A hand dealt a blackjack takes no action: it is skipped as it stands.
    /// Returns whether the current hand was such a hand.
    pub fn skip_if_blackjack(&mut self) -> (skipped: bool)
        requires
            old(self).hand_index < old(self).player_hands@.len(),
        ensures
            skipped == spec_is_blackjack(old(self).player_hands@[old(self).hand_index as int]@),
            skipped ==> final(self).hand_index == old(self).hand_index + 1,
            !skipped ==> final(self).hand_index == old(self).hand_index,
            final(self).player_hands@ == old(self).player_hands@,
            final(self).total_bet == old(self).total_bet,
            final(self).bet_amount == old(self).bet_amount,
    {
        let n = self.player_hands.len();
        if is_blackjack(&self.player_hands[self.hand_index]) {
            assert(self.hand_index < n);
            self.hand_index = self.hand_index + 1;
            true
        } else {
            false
        }
    }

    /// Books a terminal player-turn result for the current hand: a stood or
    /// doubled hand is stored and the round moves to the next hand; a split
    /// replaces the hand by its first half, appends the second half, and
    /// stays on the same index so the first half is resolved next; a
    /// double-down or split adds one base bet to the total wagered. A
    /// surrender ends the whole round at once, leaving the state as it was.
    pub fn apply_result(&mut self, hand: Vec<Card>, result: PlayerActionResult) -> (surrendered:
        bool)
        requires
            old(self).hand_index < old(self).player_hands@.len(),
            !(result is Continue),
            old(self).total_bet + old(self).bet_amount <= u32::MAX,
        ensures
            final(self).bet_amount == old(self).bet_amount,
            final(self).hand_index >= old(self).hand_index,
            final(self).total_bet >= old(self).total_bet,
            result is Stand ==> {
                &&& !surrendered
                &&& final(self).player_hands@ == old(self).player_hands@.update(
                    old(self).hand_index as int,
                    hand,
                )
                &&& final(self).hand_index == old(self).hand_index + 1
                &&& final(self).total_bet == old(self).total_bet
            },
            result is DoubleDown ==> {
                &&& !surrendered
                &&& final(self).player_hands@ == old(self).player_hands@.update(
                    old(self).hand_index as int,
                    hand,
                )
                &&& final(self).hand_index == old(self).hand_index + 1
                &&& final(self).total_bet == old(self).total_bet + old(self).bet_amount
            },
            result matches PlayerActionResult::Split(h1, h2) ==> {
                &&& !surrendered
                &&& final(self).player_hands@ == old(self).player_hands@.update(
                    old(self).hand_index as int,
                    h1,
                ).push(h2)
                &&& final(self).hand_index == old(self).hand_index
                &&& final(self).total_bet == old(self).total_bet + old(self).bet_amount
            },
            result is Surrender ==> {
                &&& surrendered
                &&& final(self).player_hands@ == old(self).player_hands@
                &&& final(self).hand_index == old(self).hand_index
                &&& final(self).total_bet == old(self).total_bet
            },
    {
        let n = self.player_hands.len();
        assert(self.hand_index < n);
        match result {
            PlayerActionResult::Continue => false,
            PlayerActionResult::Stand => {
                self.player_hands.set(self.hand_index, hand);
                self.hand_index = self.hand_index + 1;
                false
            },
            PlayerActionResult::DoubleDown => {
                self.total_bet = self.total_bet + self.bet_amount;
                self.player_hands.set(self.hand_index, hand);
                self.hand_index = self.hand_index + 1;
                false
            },
            PlayerActionResult::Split(hand1, hand2) => {
                self.total_bet = self.total_bet + self.bet_amount;
                self.player_hands.set(self.hand_index, hand1);
                self.player_hands.push(hand2);
                false
            },
            PlayerActionResult::Surrender => true,
        }
    }

    /// A surrendered round refunds exactly half the base bet, whatever the
    /// hands hold.
    pub fn surrender_refund(&self) -> (refund: u32)
        ensures
            refund == self.bet_amount / 2,
    {
        self.bet_amount / 2
    }
}

} // verus!

