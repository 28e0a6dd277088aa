use vstd::prelude::*;

use rand::seq::SliceRandom;

verus! {

/// The thirteen card ranks; suits carry no information in this game, so a
/// card is its rank.
#[derive(Clone, Copy, Debug, PartialEq, Eq, Structural)]
pub enum Rank {
    Two,
    Three,
    Four,
    Five,
    Six,
    Seven,
    Eight,
    Nine,
    Ten,
    Jack,
    Queen,
    King,
    Ace,
}

#[derive(Clone, Copy, Debug, PartialEq, Eq, Structural)]
pub struct Card(pub Rank);

impl Card {
    /// Nominal point value of a card: pip cards count their number, face
    /// cards count 10, and an ace nominally counts 11 (it may later be
    /// reduced to 1 during hand valuation).
    pub open spec fn spec_value(self) -> int {
        match self.0 {
            Rank::Two => 2,
            Rank::Three => 3,
            Rank::Four => 4,
            Rank::Five => 5,
            Rank::Six => 6,
            Rank::Seven => 7,
            Rank::Eight => 8,
            Rank::Nine => 9,
            Rank::Ten => 10,
            Rank::Jack => 10,
            Rank::Queen => 10,
            Rank::King => 10,
            Rank::Ace => 11,
        }
    }

    pub fn value(&self) -> (v: u8)
        ensures
            v == self.spec_value(),
    {
        match self.0 {
            Rank::Ace => 11,
            Rank::Two => 2,
            Rank::Three => 3,
            Rank::Four => 4,
            Rank::Five => 5,
            Rank::Six => 6,
            Rank::Seven => 7,
            Rank::Eight => 8,
            Rank::Nine => 9,
            Rank::Ten | Rank::Jack | Rank::Queen | Rank::King => 10,
        }
    }

    pub open spec fn spec_is_ace(self) -> bool {
        self.0 is Ace
    }

    pub fn is_ace(&self) -> (r: bool)
        ensures
            r == self.spec_is_ace(),
    {
        matches!(self.0, Rank::Ace)
    }

    /// Short display label of a card, annotated with its point value where
    /// the symbol alone does not show it.
    pub open spec fn spec_short(self) -> Seq<char> {
        match self.0 {
            Rank::Two => "2"@,
            Rank::Three => "3"@,
            Rank::Four => "4"@,
            Rank::Five => "5"@,
            Rank::Six => "6"@,
            Rank::Seven => "7"@,
            Rank::Eight => "8"@,
            Rank::Nine => "9"@,
            Rank::Ten => "10"@,
            Rank::Jack => "J(10)"@,
            Rank::Queen => "Q(10)"@,
            Rank::King => "K(10)"@,
            Rank::Ace => "A(11)"@,
        }
    }

    pub fn short(&self) -> (s: &'static str)
        ensures
            s@ == self.spec_short(),
    {
        match self.0 {
            Rank::Two => "2",
            Rank::Three => "3",
            Rank::Four => "4",
            Rank::Five => "5",
            Rank::Six => "6",
            Rank::Seven => "7",
            Rank::Eight => "8",
            Rank::Nine => "9",
            Rank::Ten => "10",
            Rank::Jack => "J(10)",
            Rank::Queen => "Q(10)",
            Rank::King => "K(10)",
            Rank::Ace => "A(11)",
        }
    }
}

/// Sum of the nominal point values of a hand (every ace counted as 11).
pub open spec fn spec_nominal_sum(hand: Seq<Card>) -> int
    decreases hand.len(),
{
    if hand.len() == 0 {
        0
    } else {
        spec_nominal_sum(hand.drop_last()) + hand.last().spec_value()
    }
}

/// Number of aces in a hand.
pub open spec fn spec_num_aces(hand: Seq<Card>) -> int
    decreases hand.len(),
{
    if hand.len() == 0 {
        0
    } else {
        spec_num_aces(hand.drop_last()) + if hand.last().spec_is_ace() {
            1int
        } else {
            0int
        }
    }
}

/// Ace reduction: while the running total exceeds 21 and an ace is still
/// counted as 11, count that ace as 1 instead (subtract 10).
pub open spec fn spec_reduce(sum: int, aces: int) -> int
    decreases aces,
{
    if sum > 21 && aces > 0 {
        spec_reduce(sum - 10, aces - 1)
    } else {
        sum
    }
}

/// The value of a hand: the nominal sum with as many aces as needed (and
/// available) re-counted from 11 down to 1 to bring the total to 21 or less.
pub open spec fn spec_hand_value(hand: Seq<Card>) -> int {
    spec_reduce(spec_nominal_sum(hand), spec_num_aces(hand))
}

/// How many aces the reduction re-counts as 1.
pub open spec fn spec_reduce_steps(sum: int, aces: int) -> int
    decreases aces,
{
    if sum > 21 && aces > 0 {
        1 + spec_reduce_steps(sum - 10, aces - 1)
    } else {
        0
    }
}

/// A blackjack is a two-card hand worth exactly 21.
pub open spec fn spec_is_blackjack(hand: Seq<Card>) -> bool {
    hand.len() == 2 && spec_hand_value(hand) == 21
}

pub proof fn lemma_nominal_sum_bounds(hand: Seq<Card>)
    ensures
        2 * hand.len() <= spec_nominal_sum(hand) <= 11 * hand.len(),
    decreases hand.len(),
{
    if hand.len() > 0 {
        lemma_nominal_sum_bounds(hand.drop_last());
    }
}

pub proof fn lemma_num_aces_bounds(hand: Seq<Card>)
    ensures
        0 <= spec_num_aces(hand) <= hand.len(),
    decreases hand.len(),
{
    if hand.len() > 0 {
        lemma_num_aces_bounds(hand.drop_last());
    }
}

/// Appending a card adds its value to the nominal sum and its ace count to
/// the ace count.
pub proof fn lemma_push_card(hand: Seq<Card>, c: Card)
    ensures
        spec_nominal_sum(hand.push(c)) == spec_nominal_sum(hand) + c.spec_value(),
        spec_num_aces(hand.push(c)) == spec_num_aces(hand) + if c.spec_is_ace() {
            1int
        } else {
            0int
        },
{
    assert(hand.push(c).drop_last() =~= hand);
}

/// The reduction removes at most 10 points per ace.
pub proof fn lemma_reduce_lower_bound(sum: int, aces: int)
    requires
        aces >= 0,
    ensures
        spec_reduce(sum, aces) >= sum - 10 * aces,
    decreases aces,
{
    if sum > 21 && aces > 0 {
        lemma_reduce_lower_bound(sum - 10, aces - 1);
    }
}

/// Law: whenever a hand holds at least one ace and its nominal sum is at
/// most 31, ace reduction brings its value to 21 or less.
pub proof fn lemma_ace_reduction_caps_value(hand: Seq<Card>)
    requires
        spec_num_aces(hand) >= 1,
        spec_nominal_sum(hand) <= 31,
    ensures
        spec_hand_value(hand) <= 21,
{
    let sum = spec_nominal_sum(hand);
    let aces = spec_num_aces(hand);
    if sum > 21 {
        assert(spec_reduce(sum, aces) == spec_reduce(sum - 10, aces - 1));
        assert(spec_reduce(sum - 10, aces - 1) == sum - 10);
    }
}

/// A prefix of a hand has a nominal sum no larger than the whole hand's.
pub proof fn lemma_nominal_sum_take(hand: Seq<Card>, i: int)
    requires
        0 <= i <= hand.len(),
    ensures
        spec_nominal_sum(hand.take(i)) <= spec_nominal_sum(hand),
    decreases hand.len(),
{
    if i == hand.len() {
        assert(hand.take(i) =~= hand);
    } else {
        assert(hand.drop_last().take(i) =~= hand.take(i));
        lemma_nominal_sum_take(hand.drop_last(), i);
        lemma_nominal_sum_bounds(hand);
    }
}

/// Computes the value of a hand: nominal sum, then ace reduction while the
/// total exceeds 21.
pub fn hand_value(hand: &Vec<Card>) -> (v: u8)
    requires
        spec_nominal_sum(hand@) <= 255,
    ensures
        v == spec_hand_value(hand@),
{
    let mut sum: u8 = 0;
    let mut aces: usize = 0;
    let mut i: usize = 0;
    while i < hand.len()
        invariant
            i <= hand@.len(),
            spec_nominal_sum(hand@) <= 255,
            sum == spec_nominal_sum(hand@.take(i as int)),
            aces == spec_num_aces(hand@.take(i as int)),
            aces <= i,
        decreases hand@.len() - i,
    {
        proof {
            assert(hand@.take(i + 1).drop_last() =~= hand@.take(i as int));
            lemma_nominal_sum_take(hand@, i + 1);
            lemma_nominal_sum_bounds(hand@.take(i + 1));
        }
        sum = sum + hand[i].value();
        if hand[i].is_ace() {
            aces = aces + 1;
        }
        i = i + 1;
    }
    proof {
        assert(hand@.take(i as int) =~= hand@);
    }
    while sum > 21 && aces > 0
        invariant
            spec_reduce(sum as int, aces as int) == spec_hand_value(hand@),
        decreases aces,
    {
        sum = sum - 10;
        aces = aces - 1;
    }
    sum
}

/// How many aces of a hand the valuation counts as 1 rather than 11; what a
/// presentation layer needs to annotate each ace.
pub fn aces_counted_as_one(hand: &Vec<Card>) -> (n: usize)
    requires
        spec_nominal_sum(hand@) <= 255,
    ensures
        n == spec_reduce_steps(spec_nominal_sum(hand@), spec_num_aces(hand@)),
{
    let mut sum: u8 = 0;
    let mut aces: usize = 0;
    let mut i: usize = 0;
    while i < hand.len()
        invariant
            i <= hand@.len(),
            spec_nominal_sum(hand@) <= 255,
            sum == spec_nominal_sum(hand@.take(i as int)),
            aces == spec_num_aces(hand@.take(i as int)),
            aces <= i,
        decreases hand@.len() - i,
    {
        proof {
            assert(hand@.take(i + 1).drop_last() =~= hand@.take(i as int));
            lemma_nominal_sum_take(hand@, i + 1);
            lemma_nominal_sum_bounds(hand@.take(i + 1));
        }
        sum = sum + hand[i].value();
        if hand[i].is_ace() {
            aces = aces + 1;
        }
        i = i + 1;
    }
    proof {
        assert(hand@.take(i as int) =~= hand@);
    }
    let mut steps: usize = 0;
    while sum > 21 && aces > 0
        invariant
            steps + aces <= i,
            steps + spec_reduce_steps(sum as int, aces as int) == spec_reduce_steps(
                spec_nominal_sum(hand@),
                spec_num_aces(hand@),
            ),
        decreases aces,
    {
        sum = sum - 10;
        aces = aces - 1;
        steps = steps + 1;
    }
    steps
}

/// One card of each rank, in rank order.
pub open spec fn spec_suit() -> Seq<Card> {
    seq![
        Card(Rank::Two),
        Card(Rank::Three),
        Card(Rank::Four),
        Card(Rank::Five),
        Card(Rank::Six),
        Card(Rank::Seven),
        Card(Rank::Eight),
        Card(Rank::Nine),
        Card(Rank::Ten),
        Card(Rank::Jack),
        Card(Rank::Queen),
        Card(Rank::King),
        Card(Rank::Ace),
    ]
}

pub open spec fn spec_suits(n: int) -> Seq<Card>
    decreases n,
{
    if n <= 0 {
        Seq::empty()
    } else {
        spec_suits(n - 1) + spec_suit()
    }
}

/// A fresh deck: the four suits collapse into four copies of each rank,
/// 52 cards in all.
pub open spec fn spec_fresh_deck() -> Seq<Card> {
    spec_suits(4)
}

fn push_suit(deck: &mut Vec<Card>)
    ensures
        final(deck)@ == old(deck)@ + spec_suit(),
{
    deck.push(Card(Rank::Two));
    deck.push(Card(Rank::Three));
    deck.push(Card(Rank::Four));
    deck.push(Card(Rank::Five));
    deck.push(Card(Rank::Six));
    deck.push(Card(Rank::Seven));
    deck.push(Card(Rank::Eight));
    deck.push(Card(Rank::Nine));
    deck.push(Card(Rank::Ten));
    deck.push(Card(Rank::Jack));
    deck.push(Card(Rank::Queen));
    deck.push(Card(Rank::King));
    deck.push(Card(Rank::Ace));
    assert(deck@ =~= old(deck)@ + spec_suit());
}

/// Builds the 52-card deck: four copies of each of the thirteen ranks.
pub fn build_deck() -> (deck: Vec<Card>)
    ensures
        deck@ == spec_fresh_deck(),
        deck@.len() == 52,
{
    let mut deck: Vec<Card> = Vec::new();
    let mut i: usize = 0;
    while i < 4
        invariant
            i <= 4,
            deck@ == spec_suits(i as int),
        decreases 4 - i,
    {
        push_suit(&mut deck);
        i = i + 1;
    }
    proof {
        assert(spec_suits(0).len() == 0);
        assert(spec_suits(1).len() == 13);
        assert(spec_suits(2).len() == 26);
        assert(spec_suits(3).len() == 39);
        assert(spec_suits(4).len() == 52);
    }
    deck
}

/// Relies on rand's `SliceRandom::shuffle`: it permutes the slice in place
/// (a uniformly random permutation), so the deck keeps exactly the same
/// cards in some order.
#[verifier::external_body]
pub fn shuffle_deck(deck: &mut Vec<Card>)
    ensures
        final(deck)@.len() == old(deck)@.len(),
        final(deck)@.to_multiset() == old(deck)@.to_multiset(),
{
    let mut rng = rand::rng();
    deck.shuffle(&mut rng);
}

/// True iff the hand is a blackjack: exactly 2 cards worth 21 together.
pub fn is_blackjack(hand: &Vec<Card>) -> (r: bool)
    ensures
        r == spec_is_blackjack(hand@),
{
    if hand.len() == 2 {
        proof {
            lemma_nominal_sum_bounds(hand@);
        }
        hand_value(hand) == 21
    } else {
        false
    }
}

} // verus!
