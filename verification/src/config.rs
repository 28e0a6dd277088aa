use vstd::prelude::*;

verus! {

/// The round settings the engine reads. The configuration file also carries
/// a fractional player-edge bias; the engine only ever asks whether that
/// bias is positive (a positive bias resolves pushes as player wins), so it
/// is carried here as that one fact.
pub struct GameConfig {
    /// The bankroll the player starts with.
    pub player_starting_bank: u32,
    /// The fixed wager per hand.
    pub bet_amount: u32,
    /// Whether the player-edge bias is positive: if so, a tie is settled as
    /// a player win instead of a push.
    pub player_edge_positive: bool,
}

impl Default for GameConfig {
    /// The defaults used when no configuration is supplied: a bankroll of
    /// 1000, a bet of 50, and no player edge.
    fn default() -> (c: GameConfig)
        ensures
            c.player_starting_bank == 1000,
            c.bet_amount == 50,
            !c.player_edge_positive,
    {
        GameConfig { player_starting_bank: 1000, bet_amount: 50, player_edge_positive: false }
    }
}

} // verus!
