pub mod blackjack;
pub mod card;
pub mod config;
pub mod game;
pub mod game_action;
pub mod menu;
