use vstd::prelude::*;

use crate::card::Card;

verus! {

/// An action the player may choose while a hand is active.
#[derive(Debug, Clone, Copy, PartialEq, Eq, Structural)]
pub enum GameAction {
    Hit,
    Stand,
    DoubleDown,
    Split,
    Surrender,
}

/// Terminal (or continuing) outcome of one player decision on one hand.
#[derive(Debug, Clone)]
pub enum PlayerActionResult {
    Continue,
    Stand,
    DoubleDown,
    Split(Vec<Card>, Vec<Card>),
    Surrender,
}

pub open spec fn spec_action_from_index(index: usize) -> Option<GameAction> {
    match index {
        0usize => Some(GameAction::Hit),
        1usize => Some(GameAction::Stand),
        2usize => Some(GameAction::DoubleDown),
        3usize => Some(GameAction::Split),
        4usize => Some(GameAction::Surrender),
        _ => None,
    }
}

/// The actions legal right now, in menu order: hit and stand always, then
/// double down, split and surrender as far as each is currently allowed.
pub open spec fn spec_valid_actions(can_double: bool, can_split: bool, can_surrender: bool) -> Seq<
    GameAction,
> {
    seq![GameAction::Hit, GameAction::Stand] + (if can_double {
        seq![GameAction::DoubleDown]
    } else {
        Seq::empty()
    }) + (if can_split {
        seq![GameAction::Split]
    } else {
        Seq::empty()
    }) + (if can_surrender {
        seq![GameAction::Surrender]
    } else {
        Seq::empty()
    })
}

/// The menu label of an action.
pub open spec fn spec_action_label(action: GameAction) -> Seq<char> {
    match action {
        GameAction::Hit => "ヒット（カードを引く）"@,
        GameAction::Stand => "スタンド（現在の手札で勝負）"@,
        GameAction::DoubleDown => "ダブルダウン（ベット2倍、1枚のみ引く）"@,
        GameAction::Split => "スプリット（手札を分割）"@,
        GameAction::Surrender => "サレンダー（降参、半額返却）"@,
    }
}

impl GameAction {
    pub fn from_index(index: usize) -> (r: Option<Self>)
        ensures
            r == spec_action_from_index(index),
    {
        match index {
            0 => Some(GameAction::Hit),
            1 => Some(GameAction::Stand),
            2 => Some(GameAction::DoubleDown),
            3 => Some(GameAction::Split),
            4 => Some(GameAction::Surrender),
            _ => None,
        }
    }

    /// The menu lines offered to the player: one per valid action, each the
    /// label of the action at the same position.
    pub fn menu_items(can_double: bool, can_split: bool, can_surrender: bool) -> (items: Vec<
        &'static str,
    >)
        ensures
            items@.len() == spec_valid_actions(can_double, can_split, can_surrender).len(),
            forall|i: int|
                0 <= i < items@.len() ==> items@[i]@ == spec_action_label(
                    spec_valid_actions(can_double, can_split, can_surrender)[i],
                ),
    {
        let mut items: Vec<&'static str> = Vec::new();
        items.push("ヒット（カードを引く）");
        items.push("スタンド（現在の手札で勝負）");
        if can_double {
            items.push("ダブルダウン（ベット2倍、1枚のみ引く）");
        }
        if can_split {
            items.push("スプリット（手札を分割）");
        }
        if can_surrender {
            items.push("サレンダー（降参、半額返却）");
        }
        items
    }

    /// The actions legal right now, in the same order as the menu lines.
    pub fn get_valid_actions(can_double: bool, can_split: bool, can_surrender: bool) -> (actions:
        Vec<Self>)
        ensures
            actions@ == spec_valid_actions(can_double, can_split, can_surrender),
    {
        let mut actions: Vec<GameAction> = Vec::new();
        actions.push(GameAction::Hit);
        actions.push(GameAction::Stand);
        if can_double {
            actions.push(GameAction::DoubleDown);
        }
        if can_split {
            actions.push(GameAction::Split);
        }
        if can_surrender {
            actions.push(GameAction::Surrender);
        }
        proof {
            assert(actions@ =~= spec_valid_actions(can_double, can_split, can_surrender));
        }
        actions
    }
}

pub open spec fn spec_can_double_down(hand: Seq<Card>) -> bool {
    hand.len() == 2
}

pub open spec fn spec_can_split(hand: Seq<Card>) -> bool {
    hand.len() == 2 && hand[0].spec_value() == hand[1].spec_value()
}

pub open spec fn spec_can_surrender(hand: Seq<Card>) -> bool {
    hand.len() == 2
}

/// Doubling down is allowed only on a two-card hand.
pub fn can_double_down(hand: &Vec<Card>) -> (r: bool)
    ensures
        r == spec_can_double_down(hand@),
{
    hand.len() == 2
}

/// Splitting is allowed only on a two-card hand whose cards have equal point
/// value (so a king and a queen, both worth 10, are splittable).
pub fn can_split(hand: &Vec<Card>) -> (r: bool)
    ensures
        r == spec_can_split(hand@),
{
    hand.len() == 2 && hand[0].value() == hand[1].value()
}

/// Surrendering is allowed only on a two-card hand.
pub fn can_surrender(hand: &Vec<Card>) -> (r: bool)
    ensures
        r == spec_can_surrender(hand@),
{
    hand.len() == 2
}

} // verus!
