//! The games the service supports and the game engine that resolves a
//! request of wagers against a drawn outcome.

use vstd::prelude::*;
use rand::Rng;
use crate::bet::{spec_resolve, spec_validate, Bet, BetError};
use crate::odds::{digit_val, outcome_value, outcome_well_formed};

verus! {

/// The games the application supports.
#[derive(Clone, Copy, PartialEq, Eq, Structural, Debug)]
pub enum Game {
    EuropeanRoulette,
}

/// The data required to submit a game from an authorised service.
pub struct GameRequest {
    pub game: Game,
    pub bets: Vec<Bet>,
}

/// A game that has been completed by the application, which is stored in
/// the store of historical games and returned to the service that
/// requested the game to be run.
pub struct PlayedGame {
    /// The fresh 128-bit identifier the record is stored under.
    pub uuid: u128,
    pub game: Game,
    /// The wagers of the request, each with its chips-out set.
    pub bets: Vec<Bet>,
    /// The identity of the service that submitted the request.
    pub service_id: String,
    /// When the game was resolved, in seconds since the epoch.
    pub occurred: u64,
    /// The drawn outcome, as a two-character zero-padded number.
    pub result: String,
}

/// A record's bets are fully resolved: every one of them carries a
/// chips-out value. Records made by `check_and_play` always satisfy this.
pub open spec fn record_resolved(p: PlayedGame) -> bool {
    forall|i: int| 0 <= i < p.bets@.len() ==> (#[trigger] p.bets@[i].chips_out) is Some
}

/// What checking a request's bets in order answers: the error of the
/// first invalid bet, or success when every bet validates.
pub open spec fn spec_validate_bets(game: Game, bets: Seq<Bet>) -> Result<(), BetError>
    decreases bets.len(),
{
    if bets.len() == 0 {
        Ok(())
    } else {
        match spec_validate(bets[0], game) {
            Err(e) => Err(e),
            Ok(()) => spec_validate_bets(game, bets.skip(1)),
        }
    }
}

/// What validating a whole request answers: a request that carries no
/// wagers is rejected outright; otherwise the bets are checked in order
/// and the first invalid one decides.
pub open spec fn spec_validate_request(game: Game, bets: Seq<Bet>) -> Result<(), BetError> {
    if bets.len() == 0 {
        Err(BetError::EmptyWagerCollection)
    } else {
        spec_validate_bets(game, bets)
    }
}

/// Checking the bets in order succeeds exactly when every bet validates.
proof fn lemma_validate_bets_ok(game: Game, bets: Seq<Bet>)
    ensures
        spec_validate_bets(game, bets) is Ok <==> (forall|i: int|
            0 <= i < bets.len() ==> spec_validate(#[trigger] bets[i], game) is Ok),
    decreases bets.len(),
{
    if bets.len() > 0 {
        lemma_validate_bets_ok(game, bets.skip(1));
        if spec_validate(bets[0], game) is Ok {
            assert forall|i: int| 0 <= i < bets.len() && spec_validate_bets(game, bets) is Ok
                implies spec_validate(#[trigger] bets[i], game) is Ok by {
                if i > 0 {
                    assert(bets.skip(1)[i - 1] == bets[i]);
                }
            }
            if forall|i: int| 0 <= i < bets.len() ==> spec_validate(
                #[trigger] bets[i],
                game,
            ) is Ok {
                assert forall|i: int| 0 <= i < bets.skip(1).len() implies spec_validate(
                    #[trigger] bets.skip(1)[i],
                    game,
                ) is Ok by {
                    assert(bets.skip(1)[i] == bets[i + 1]);
                }
            }
        }
    }
}

/// A request validates exactly when it carries at least one bet and
/// every one of its bets validates.
pub proof fn lemma_validate_request_ok(game: Game, bets: Seq<Bet>)
    ensures
        spec_validate_request(game, bets) is Ok <==> (bets.len() > 0 && (forall|i: int|
            0 <= i < bets.len() ==> spec_validate(#[trigger] bets[i], game) is Ok)),
{
    lemma_validate_bets_ok(game, bets);
}

/// Makes a bet equal to the given one, so a record can carry its own copy
/// of each resolved wager.
pub(crate) fn clone_bet(b: &Bet) -> (r: Bet)
    ensures
        r == *b,
{
    Bet {
        player_id: b.player_id.clone(),
        bet: b.bet.clone(),
        chips_in: b.chips_in,
        chips_out: b.chips_out,
    }
}

/// Relies on `String::push`: appends exactly the one character to the end
/// of the string.
#[verifier::external_body]
fn push_char(s: &mut String, c: char)
    ensures
        final(s)@ == old(s)@.push(c),
{
    s.push(c);
}

/// Renders a wheel outcome as its canonical two-character zero-padded
/// string, e.g. `07` or `36`.
pub fn outcome_string(n: u8) -> (r: String)
    requires
        n <= 36,
    ensures
        outcome_well_formed(r@),
        outcome_value(r@) == n as int,
{
    let d1: u8 = 48 + n / 10;
    let d0: u8 = 48 + n % 10;
    let mut s = String::new();
    push_char(&mut s, d1 as char);
    push_char(&mut s, d0 as char);
    proof {
        assert(s@.len() == 2);
        assert(s@[0] == d1 as char);
        assert(s@[1] == d0 as char);
        assert(digit_val(d1 as char) == n as int / 10);
        assert(digit_val(d0 as char) == n as int % 10);
    }
    s
}

/// Relies on `uuid::Uuid::new_v4` for a freshly generated random 128-bit
/// record identifier.
#[verifier::external_body]
fn fresh_uuid() -> u128 {
    uuid::Uuid::new_v4().as_u128()
}

/// Relies on `rand`: `random_range(0..=36)` returns a uniformly
/// distributed value of that range, so the result is always a wheel
/// outcome.
#[verifier::external_body]
fn draw_outcome() -> (r: u8)
    ensures
        r <= 36,
{
    let mut rng = rand::rng();
    rng.random_range(0..=36)
}

/// Relies on `chrono::Utc::now` for the current time, read once when a
/// game is resolved.
#[verifier::external_body]
pub(crate) fn now_timestamp() -> u64 {
    chrono::Utc::now().timestamp() as u64
}

impl GameRequest {
    /// Checks the whole request: a request with no wagers is rejected,
    /// and otherwise every bet is checked against the acceptable bets for
    /// the game, stopping at the first invalid one.
    pub fn is_valid(&self) -> (r: Result<(), BetError>)
        ensures
            r == spec_validate_request(self.game, self.bets@),
    {
        if self.bets.len() == 0 {
            return Err(BetError::EmptyWagerCollection);
        }
        let ghost all = self.bets@;
        proof {
            assert(all.skip(0) =~= all);
        }
        let mut i: usize = 0;
        while i < self.bets.len()
            invariant
                i <= self.bets@.len(),
                all == self.bets@,
                all.len() > 0,
                spec_validate_bets(self.game, all) == spec_validate_bets(
                    self.game,
                    all.skip(i as int),
                ),
            decreases self.bets@.len() - i,
        {
            proof {
                assert(all.skip(i as int)[0] == all[i as int]);
            }
            match self.bets[i].is_valid(&self.game) {
                Err(e) => {
                    return Err(e);
                },
                Ok(()) => {},
            }
            proof {
                assert(all.skip(i as int).skip(1) =~= all.skip(i as int + 1));
            }
            i += 1;
        }
        Ok(())
    }

    /// Checks and plays the requested game: a game is never played without
    /// its validity being checked first. On success every wager of the
    /// request and of the returned record carries the exact payout the
    /// drawn outcome owes it.
    pub fn check_and_play(&mut self, service_id: String) -> (r: Result<PlayedGame, BetError>)
        ensures
            match r {
                Err(e) => {
                    &&& Err::<(), BetError>(e) == spec_validate_request(
                        old(self).game,
                        old(self).bets@,
                    )
                    &&& *final(self) == *old(self)
                },
                Ok(p) => {
                    &&& spec_validate_request(old(self).game, old(self).bets@) is Ok
                    &&& p.game == old(self).game
                    &&& p.service_id == service_id
                    &&& outcome_well_formed(p.result@)
                    &&& outcome_value(p.result@) <= 36
                    &&& p.bets@.len() == old(self).bets@.len()
                    &&& forall|i: int| 0 <= i < p.bets@.len() ==> p.bets@[i] == spec_resolve(
                        old(self).bets@[i],
                        old(self).game,
                        p.result@,
                    )
                    &&& record_resolved(p)
                    &&& final(self).game == old(self).game
                    &&& final(self).bets@ == p.bets@
                },
            },
    {
        match self.is_valid() {
            Err(e) => {
                return Err(e);
            },
            Ok(()) => {},
        }
        proof {
            lemma_validate_request_ok(self.game, self.bets@);
        }

        let uuid = fresh_uuid();
        let n = draw_outcome();
        let result = outcome_string(n);
        let occurred = now_timestamp();

        let ghost orig = self.bets@;
        let mut resolved: Vec<Bet> = Vec::new();
        let mut i: usize = 0;
        while i < self.bets.len()
            invariant
                i <= self.bets@.len(),
                orig == self.bets@,
                self.game == old(self).game,
                outcome_well_formed(result@),
                forall|t: int| 0 <= t < orig.len() ==> spec_validate(
                    #[trigger] orig[t],
                    self.game,
                ) is Ok,
                resolved@.len() == i as int,
                forall|t: int| 0 <= t < i ==> resolved@[t] == spec_resolve(
                    orig[t],
                    self.game,
                    result@,
                ),
            decreases self.bets@.len() - i,
        {
            let mut nb = clone_bet(&self.bets[i]);
            nb.did_win(&self.game, result.as_str());
            resolved.push(nb);
            i += 1;
        }

        let mut record_bets: Vec<Bet> = Vec::new();
        let mut j: usize = 0;
        while j < resolved.len()
            invariant
                j <= resolved@.len(),
                record_bets@.len() == j as int,
                forall|t: int| 0 <= t < j ==> record_bets@[t] == resolved@[t],
            decreases resolved@.len() - j,
        {
            record_bets.push(clone_bet(&resolved[j]));
            j += 1;
        }
        proof {
            assert(record_bets@ =~= resolved@);
        }

        self.bets = resolved;
        Ok(
            PlayedGame {
                uuid,
                game: self.game,
                bets: record_bets,
                service_id,
                occurred,
                result,
            },
        )
    }
}

} // verus!
