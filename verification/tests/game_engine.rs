use sky_bet_roulette::bet::{Bet, BetError};
use sky_bet_roulette::game::{outcome_string, Game, GameRequest};

fn bet(selector: &str, chips_in: u64) -> Bet {
    Bet {
        player_id: "player_one".to_string(),
        bet: selector.to_string(),
        chips_in,
        chips_out: None,
    }
}

fn request(bets: Vec<Bet>) -> GameRequest {
    GameRequest { game: Game::EuropeanRoulette, bets }
}

#[test]
fn test_empty_request_is_rejected() {
    let mut r = request(vec![]);
    assert_eq!(r.is_valid(), Err(BetError::EmptyWagerCollection));
    let outcome = r.check_and_play("svc_a".to_string());
    assert_eq!(outcome.err(), Some(BetError::EmptyWagerCollection));
}

#[test]
fn test_request_with_valid_bets_is_valid() {
    let r = request(vec![bet("00", 10), bet("0102", 5), bet("36", 1)]);
    assert_eq!(r.is_valid(), Ok(()));
}

#[test]
fn test_request_reports_first_failure() {
    let r = request(vec![bet("00", 10), bet("xx", 1), bet("01", u64::MAX)]);
    assert_eq!(r.is_valid(), Err(BetError::UnrecognizedSelector));

    let r = request(vec![bet("00", 10), bet("01", u64::MAX), bet("xx", 1)]);
    assert_eq!(r.is_valid(), Err(BetError::StakeTooLarge));
}

#[test]
fn test_outcome_string_is_zero_padded() {
    assert_eq!(outcome_string(0), "00");
    assert_eq!(outcome_string(7), "07");
    assert_eq!(outcome_string(10), "10");
    assert_eq!(outcome_string(36), "36");
}

#[test]
fn test_play_resolves_every_bet() {
    let mut r = request(vec![bet("00", 10), bet("17", 4), bet("0102", 6)]);
    let played = r.check_and_play("svc_a".to_string()).unwrap();

    assert!(matches!(played.game, Game::EuropeanRoulette));
    assert_eq!(played.service_id, "svc_a");
    assert_eq!(played.bets.len(), 3);

    let outcome = played.result.clone();
    assert_eq!(outcome.len(), 2);
    let n: u64 = outcome.parse().unwrap();
    assert!(n <= 36);

    for (i, selector, chips) in [(0usize, "00", 10u64), (1, "17", 4), (2, "0102", 6)] {
        let b = &played.bets[i];
        assert_eq!(b.bet, selector);
        assert_eq!(b.chips_in, chips);
        let covered = selector
            .as_bytes()
            .chunks(2)
            .any(|c| c == outcome.as_bytes());
        let multiplier: u64 = 36 / (selector.len() as u64 / 2);
        let expected = if covered { chips * multiplier } else { 0 };
        assert_eq!(b.chips_out, Some(expected), "bet {} against {}", selector, outcome);
    }

    // the request's own bets carry the same resolution
    for (i, b) in r.bets.iter().enumerate() {
        assert_eq!(b.chips_out, played.bets[i].chips_out);
    }
}

#[test]
fn test_play_never_resolves_an_invalid_request() {
    let mut r = request(vec![bet("00", 10), bet("xx", 1)]);
    let expected = r.is_valid();
    let outcome = r.check_and_play("svc_a".to_string());
    assert!(outcome.is_err());
    assert_eq!(outcome.err(), expected.err());
    // no bet was resolved
    assert_eq!(r.bets[0].chips_out, None);
    assert_eq!(r.bets[1].chips_out, None);
}

#[test]
fn test_outcomes_cover_the_wheel() {
    // every one of the 37 outcomes shows up over many plays, and no play
    // ever draws anything outside the wheel
    let mut seen = [false; 37];
    for _ in 0..5000 {
        let mut r = request(vec![bet("00", 1)]);
        let played = r.check_and_play("svc_a".to_string()).unwrap();
        let n: usize = played.result.parse().unwrap();
        assert!(n <= 36);
        seen[n] = true;
    }
    assert!(seen.iter().all(|s| *s), "an outcome never appeared: {:?}", seen);
}
