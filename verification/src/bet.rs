//! The bet engine: validating a single wager against the odds table and
//! resolving it against a drawn outcome.

use vstd::prelude::*;
use crate::game::Game;
use crate::odds::{
    outcome_value, outcome_well_formed, payout_multiplier, selector_covers,
    selector_covers_outcome, selector_multiplier, selector_recognized,
};

verus! {

/// Why a wager was rejected at validation.
#[derive(Clone, Copy, PartialEq, Eq, Structural, Debug)]
pub enum BetError {
    /// The bet selector is not in the odds table of the requested game.
    UnrecognizedSelector,
    /// The stake is so large that computing its payout would overflow.
    StakeTooLarge,
    /// The request carries no wagers at all.
    EmptyWagerCollection,
}

/// A bet placed by a player within a game request.
pub struct Bet {
    /// A player identifier issued from the service that is making a request.
    pub player_id: String,
    /// The bet placed, as a concatenation of two-character zero-padded
    /// numbers, e.g. `000102`.
    pub bet: String,
    /// The number of chips the player has placed.
    pub chips_in: u64,
    /// The number of chips returned after the game is played; absent until
    /// the bet is resolved.
    pub chips_out: Option<u64>,
}

/// Whether the odds table of `game` recognizes the bet's selector.
pub open spec fn bet_recognized(b: Bet, game: Game) -> bool {
    match game {
        Game::EuropeanRoulette => selector_recognized(b.bet@),
    }
}

/// Whether the full payout of the bet fits the chip domain.
pub open spec fn bet_stake_ok(b: Bet, game: Game) -> bool {
    b.chips_in as int * selector_multiplier(b.bet@) <= u64::MAX as int
}

/// What validating a single bet answers.
pub open spec fn spec_validate(b: Bet, game: Game) -> Result<(), BetError> {
    if !bet_recognized(b, game) {
        Err(BetError::UnrecognizedSelector)
    } else if !bet_stake_ok(b, game) {
        Err(BetError::StakeTooLarge)
    } else {
        Ok(())
    }
}

/// The chips a resolved bet pays out: the stake times the multiplier when
/// the selector covers the drawn outcome, and nothing otherwise.
pub open spec fn resolve_payout(b: Bet, game: Game, w: Seq<char>) -> int {
    if selector_covers(b.bet@, outcome_value(w)) {
        b.chips_in as int * selector_multiplier(b.bet@)
    } else {
        0
    }
}

/// The bet after resolution against the drawn outcome `w`: the same bet
/// with its chips-out set to the payout.
pub open spec fn spec_resolve(b: Bet, game: Game, w: Seq<char>) -> Bet {
    Bet { chips_out: Some(resolve_payout(b, game, w) as u64), ..b }
}

impl Bet {
    /// Checks that the bet's selector is recognized for the game and that
    /// the stake is small enough that its payout can be computed.
    pub fn is_valid(&self, game: &Game) -> (r: Result<(), BetError>)
        ensures
            r == spec_validate(*self, *game),
    {
        match payout_multiplier(game, self.bet.as_str()) {
            None => Err(BetError::UnrecognizedSelector),
            Some(odds) => {
                match self.chips_in.checked_mul(odds) {
                    None => Err(BetError::StakeTooLarge),
                    Some(_) => Ok(()),
                }
            },
        }
    }

    /// Resolves the bet against the drawn winning number, setting its
    /// chips-out to the exact payout the odds table owes.
    pub fn did_win(&mut self, game: &Game, winning_number: &str)
        requires
            bet_recognized(*old(self), *game),
            bet_stake_ok(*old(self), *game),
            outcome_well_formed(winning_number@),
        ensures
            *final(self) == spec_resolve(*old(self), *game, winning_number@),
    {
        if !selector_covers_outcome(self.bet.as_str(), winning_number) {
            self.chips_out = Some(0);
            return;
        }
        match payout_multiplier(game, self.bet.as_str()) {
            Some(odds) => {
                self.chips_out = Some(self.chips_in * odds);
            },
            None => {
                assert(false);
            },
        }
    }
}

/// Resolution is a pure function of the bet, the game and the drawn
/// outcome: identical inputs always resolve to the identical bet.
pub proof fn lemma_resolve_deterministic(b1: Bet, b2: Bet, game: Game, w1: Seq<char>, w2: Seq<char>)
    requires
        b1 == b2,
        w1 == w2,
    ensures
        spec_resolve(b1, game, w1) == spec_resolve(b2, game, w2),
{
}

/// A bet that does not cover the drawn outcome pays nothing; one that does
/// pays exactly its stake times the selector's multiplier.
pub proof fn lemma_resolve_payout(b: Bet, game: Game, w: Seq<char>)
    requires
        bet_stake_ok(b, game),
    ensures
        !selector_covers(b.bet@, outcome_value(w)) ==> spec_resolve(b, game, w).chips_out
            == Some(0u64),
        selector_covers(b.bet@, outcome_value(w)) ==> spec_resolve(b, game, w).chips_out
            == Some((b.chips_in as int * selector_multiplier(b.bet@)) as u64),
{
}

/// A recognized selector with a stake whose payout fits the chip domain
/// always validates.
pub proof fn lemma_validate_accepts(b: Bet, game: Game)
    requires
        bet_recognized(b, game),
        bet_stake_ok(b, game),
    ensures
        spec_validate(b, game) == Ok::<(), BetError>(()),
{
}

/// An unrecognized selector is rejected whatever the stake.
pub proof fn lemma_validate_unrecognized(b: Bet, game: Game)
    requires
        !bet_recognized(b, game),
    ensures
        spec_validate(b, game) == Err::<(), BetError>(BetError::UnrecognizedSelector),
{
}

/// A stake whose payout would overflow is rejected as too large.
pub proof fn lemma_validate_stake_too_large(b: Bet, game: Game)
    requires
        bet_recognized(b, game),
        !bet_stake_ok(b, game),
    ensures
        spec_validate(b, game) == Err::<(), BetError>(BetError::StakeTooLarge),
{
}

} // verus!
