use blackjack::card::{Card, Rank};
use blackjack::config::GameConfig;
use blackjack::game_action::{GameAction, can_double_down, can_split, can_surrender};
use blackjack::menu::{MenuChoice, PostGameChoice};

fn hand(ranks: &[Rank]) -> Vec<Card> {
    ranks.iter().map(|r| Card(*r)).collect()
}

#[test]
fn action_from_index() {
    assert!(matches!(GameAction::from_index(0), Some(GameAction::Hit)));
    assert!(matches!(GameAction::from_index(1), Some(GameAction::Stand)));
    assert!(matches!(GameAction::from_index(2), Some(GameAction::DoubleDown)));
    assert!(matches!(GameAction::from_index(3), Some(GameAction::Split)));
    assert!(matches!(GameAction::from_index(4), Some(GameAction::Surrender)));
    assert!(GameAction::from_index(5).is_none());
    assert!(GameAction::from_index(100).is_none());
}

#[test]
fn valid_actions_all_allowed() {
    let actions = GameAction::get_valid_actions(true, true, true);
    assert_eq!(
        actions,
        vec![
            GameAction::Hit,
            GameAction::Stand,
            GameAction::DoubleDown,
            GameAction::Split,
            GameAction::Surrender,
        ]
    );
}

#[test]
fn valid_actions_none_allowed() {
    let actions = GameAction::get_valid_actions(false, false, false);
    assert_eq!(actions, vec![GameAction::Hit, GameAction::Stand]);
}

#[test]
fn valid_actions_partial() {
    let actions = GameAction::get_valid_actions(true, false, true);
    assert_eq!(
        actions,
        vec![
            GameAction::Hit,
            GameAction::Stand,
            GameAction::DoubleDown,
            GameAction::Surrender,
        ]
    );
}

#[test]
fn action_menu_matches_valid_actions() {
    let items = GameAction::menu_items(true, true, true);
    assert_eq!(
        items,
        vec![
            "ヒット（カードを引く）",
            "スタンド（現在の手札で勝負）",
            "ダブルダウン（ベット2倍、1枚のみ引く）",
            "スプリット（手札を分割）",
            "サレンダー（降参、半額返却）",
        ]
    );
    let items = GameAction::menu_items(false, false, false);
    assert_eq!(
        items,
        vec!["ヒット（カードを引く）", "スタンド（現在の手札で勝負）"]
    );
}

#[test]
fn double_down_eligibility() {
    assert!(can_double_down(&hand(&[Rank::Five, Rank::Six])));
    assert!(!can_double_down(&hand(&[Rank::Five])));
    assert!(!can_double_down(&hand(&[Rank::Five, Rank::Six, Rank::Two])));
}

#[test]
fn split_eligibility() {
    assert!(can_split(&hand(&[Rank::King, Rank::Queen])));
    assert!(!can_split(&hand(&[Rank::King, Rank::Nine])));
    assert!(can_split(&hand(&[Rank::Seven, Rank::Seven])));
    assert!(can_split(&hand(&[Rank::Ten, Rank::Jack])));
    assert!(!can_split(&hand(&[Rank::Seven, Rank::Seven, Rank::Seven])));
    assert!(!can_split(&hand(&[Rank::Seven])));
}

#[test]
fn surrender_eligibility() {
    assert!(can_surrender(&hand(&[Rank::Two, Rank::Three])));
    assert!(!can_surrender(&hand(&[Rank::Two])));
    assert!(!can_surrender(&hand(&[Rank::Two, Rank::Three, Rank::Four])));
}

#[test]
fn menu_choice_from_index() {
    assert!(matches!(MenuChoice::from_index(0), Some(MenuChoice::StartGame)));
    assert!(matches!(MenuChoice::from_index(1), Some(MenuChoice::ShowHelp)));
    assert!(matches!(MenuChoice::from_index(2), Some(MenuChoice::Quit)));
    assert!(MenuChoice::from_index(3).is_none());
}

#[test]
fn menu_choice_items() {
    assert_eq!(
        MenuChoice::menu_items(),
        vec!["ゲーム開始", "ヘルプ表示", "終了"]
    );
}

#[test]
fn post_game_choice_from_index() {
    assert!(matches!(PostGameChoice::from_index(0), Some(PostGameChoice::NextRound)));
    assert!(matches!(PostGameChoice::from_index(1), Some(PostGameChoice::ChangeBet)));
    assert!(matches!(PostGameChoice::from_index(2), Some(PostGameChoice::Settings)));
    assert!(matches!(PostGameChoice::from_index(3), Some(PostGameChoice::Quit)));
    assert!(PostGameChoice::from_index(4).is_none());
}

#[test]
fn post_game_choice_items() {
    assert_eq!(
        PostGameChoice::menu_items(),
        vec!["次のラウンド", "賭け金変更", "設定", "メインメニューに戻る"]
    );
}

#[test]
fn default_config() {
    let cfg = GameConfig::default();
    assert_eq!(cfg.player_starting_bank, 1000);
    assert_eq!(cfg.bet_amount, 50);
    assert!(!cfg.player_edge_positive);
}
