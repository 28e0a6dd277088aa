use vstd::prelude::*;

verus! {

/// The entries of the main menu.
#[derive(Debug, Clone, Copy, PartialEq, Eq, Structural)]
pub enum MenuChoice {
    StartGame,
    ShowHelp,
    Quit,
}

/// The entries of the menu shown once a round has ended.
#[derive(Debug, Clone, Copy, PartialEq, Eq, Structural)]
pub enum PostGameChoice {
    NextRound,
    ChangeBet,
    Settings,
    Quit,
}

pub open spec fn spec_menu_choice_from_index(index: usize) -> Option<MenuChoice> {
    match index {
        0usize => Some(MenuChoice::StartGame),
        1usize => Some(MenuChoice::ShowHelp),
        2usize => Some(MenuChoice::Quit),
        _ => None,
    }
}

pub open spec fn spec_menu_choice_label(choice: MenuChoice) -> Seq<char> {
    match choice {
        MenuChoice::StartGame => "ゲーム開始"@,
        MenuChoice::ShowHelp => "ヘルプ表示"@,
        MenuChoice::Quit => "終了"@,
    }
}

pub open spec fn spec_post_game_choice_from_index(index: usize) -> Option<PostGameChoice> {
    match index {
        0usize => Some(PostGameChoice::NextRound),
        1usize => Some(PostGameChoice::ChangeBet),
        2usize => Some(PostGameChoice::Settings),
        3usize => Some(PostGameChoice::Quit),
        _ => None,
    }
}

pub open spec fn spec_post_game_choice_label(choice: PostGameChoice) -> Seq<char> {
    match choice {
        PostGameChoice::NextRound => "次のラウンド"@,
        PostGameChoice::ChangeBet => "賭け金変更"@,
        PostGameChoice::Settings => "設定"@,
        PostGameChoice::Quit => "メインメニューに戻る"@,
    }
}

impl MenuChoice {
    pub fn from_index(index: usize) -> (r: Option<Self>)
        ensures
            r == spec_menu_choice_from_index(index),
    {
        match index {
            0 => Some(MenuChoice::StartGame),
            1 => Some(MenuChoice::ShowHelp),
            2 => Some(MenuChoice::Quit),
            _ => None,
        }
    }

    /// The main menu lines, one per choice, in `from_index` order.
    pub fn menu_items() -> (items: Vec<&'static str>)
        ensures
            items@.len() == 3,
            forall|i: int|
                0 <= i < 3 ==> items@[i]@ == spec_menu_choice_label(
                    spec_menu_choice_from_index(i as usize).unwrap(),
                ),
    {
        let mut items: Vec<&'static str> = Vec::new();
        items.push("ゲーム開始");
        items.push("ヘルプ表示");
        items.push("終了");
        items
    }
}

impl PostGameChoice {
    pub fn from_index(index: usize) -> (r: Option<Self>)
        ensures
            r == spec_post_game_choice_from_index(index),
    {
        match index {
            0 => Some(PostGameChoice::NextRound),
            1 => Some(PostGameChoice::ChangeBet),
            2 => Some(PostGameChoice::Settings),
            3 => Some(PostGameChoice::Quit),
            _ => None,
        }
    }

    /// The post-round menu lines, one per choice, in `from_index` order.
    pub fn menu_items() -> (items: Vec<&'static str>)
        ensures
            items@.len() == 4,
            forall|i: int|
                0 <= i < 4 ==> items@[i]@ == spec_post_game_choice_label(
                    spec_post_game_choice_from_index(i as usize).unwrap(),
                ),
    {
        let mut items: Vec<&'static str> = Vec::new();
        items.push("次のラウンド");
        items.push("賭け金変更");
        items.push("設定");
        items.push("メインメニューに戻る");
        items
    }
}

} // verus!
