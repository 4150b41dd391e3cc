//! The odds table for the supported wheel.
//!
//! A bet selector is the concatenation of the two-character zero-padded
//! numbers it covers, e.g. `00` for a single-number bet or `0001` for a
//! bet covering `00` and `01`. A selector is recognized when every encoded
//! number is a distinct outcome of the wheel and the count of covered
//! numbers is one of the standard bet sizes; the payout multiplier is the
//! wheel size less the house number divided by that count, so a
//! single-number win pays 36 times the stake.

use vstd::prelude::*;
use crate::game::Game;

verus! {

/// The numeric value of a decimal digit character.
pub open spec fn digit_val(c: char) -> int {
    (c as u32) - 48
}

/// Whether a character is a decimal digit.
pub open spec fn is_digit(c: char) -> bool {
    48 <= (c as u32) <= 57
}

/// A selector consists of one or more two-character groups, all digits.
pub open spec fn selector_well_formed(s: Seq<char>) -> bool {
    &&& s.len() >= 2
    &&& s.len() % 2 == 0
    &&& forall|i: int| 0 <= i < s.len() ==> is_digit(#[trigger] s[i])
}

/// How many numbers the selector encodes.
pub open spec fn selector_count(s: Seq<char>) -> int {
    s.len() as int / 2
}

/// The `j`-th number the selector encodes.
pub open spec fn num_at(s: Seq<char>, j: int) -> int {
    10 * digit_val(s[2 * j]) + digit_val(s[2 * j + 1])
}

/// Every encoded number is an outcome of the 37-value wheel.
pub open spec fn nums_in_range(s: Seq<char>) -> bool {
    forall|j: int| 0 <= j < selector_count(s) ==> 0 <= #[trigger] num_at(s, j) <= 36
}

/// No outcome is encoded twice.
pub open spec fn nums_distinct(s: Seq<char>) -> bool {
    forall|j: int, k: int| 0 <= j < k < selector_count(s) ==> num_at(s, j) != num_at(s, k)
}

/// The standard bet sizes: straight, split, street, corner, six line,
/// dozen or column, and even-money bets.
pub open spec fn count_allowed(n: int) -> bool {
    n == 1 || n == 2 || n == 3 || n == 4 || n == 6 || n == 12 || n == 18
}

/// Whether the odds table recognizes a selector.
pub open spec fn selector_recognized(s: Seq<char>) -> bool {
    &&& selector_well_formed(s)
    &&& nums_in_range(s)
    &&& nums_distinct(s)
    &&& count_allowed(selector_count(s))
}

/// The payout multiplier of a recognized selector.
pub open spec fn selector_multiplier(s: Seq<char>) -> int {
    36int / selector_count(s)
}

/// Whether the selector covers the outcome numbered `n`.
pub open spec fn selector_covers(s: Seq<char>, n: int) -> bool {
    exists|j: int| 0 <= j < selector_count(s) && num_at(s, j) == n
}

/// A canonical outcome string: two digits encoding a wheel outcome.
pub open spec fn outcome_well_formed(w: Seq<char>) -> bool {
    &&& w.len() == 2
    &&& is_digit(w[0])
    &&& is_digit(w[1])
    &&& 0 <= 10 * digit_val(w[0]) + digit_val(w[1]) <= 36
}

/// The wheel outcome an outcome string encodes.
pub open spec fn outcome_value(w: Seq<char>) -> int {
    10 * digit_val(w[0]) + digit_val(w[1])
}

/// Looks a bet selector up in the odds table of `game`: returns its payout
/// multiplier when the selector is recognized, and nothing otherwise.
pub fn payout_multiplier(game: &Game, bet: &str) -> (r: Option<u64>)
    ensures
        match r {
            Some(m) => selector_recognized(bet@) && m == selector_multiplier(bet@),
            None => !selector_recognized(bet@),
        },
{
    match game {
        Game::EuropeanRoulette => {}
    }
    let len = bet.unicode_len();
    if len < 2 || len % 2 != 0 {
        return None;
    }
    let count = len / 2;
    let mut vals: Vec<u8> = Vec::new();
    let mut j: usize = 0;
    while j < count
        invariant
            len == bet@.len(),
            count == len / 2,
            len >= 2,
            len % 2 == 0,
            j <= count,
            vals@.len() == j as int,
            forall|i: int| 0 <= i < 2 * j ==> is_digit(#[trigger] bet@[i]),
            forall|t: int| 0 <= t < j ==> #[trigger] vals@[t] == num_at(bet@, t),
            forall|t: int| 0 <= t < j ==> 0 <= #[trigger] num_at(bet@, t) <= 36,
        decreases count - j,
    {
        let c1 = bet.get_char(2 * j);
        let c0 = bet.get_char(2 * j + 1);
        let v1 = c1 as u32;
        let v0 = c0 as u32;
        if v1 < 48 || v1 > 57 || v0 < 48 || v0 > 57 {
            proof {
                let jj = j as int;
                if !(48 <= v1 <= 57) {
                    assert(!is_digit(bet@[2 * jj]));
                } else {
                    assert(!is_digit(bet@[2 * jj + 1]));
                }
                assert(!selector_well_formed(bet@));
            }
            return None;
        }
        let n: u8 = (10 * (v1 - 48) + (v0 - 48)) as u8;
        if n > 36 {
            proof {
                let jj = j as int;
                assert(num_at(bet@, jj) == n as int);
                assert(!nums_in_range(bet@));
            }
            return None;
        }
        vals.push(n);
        j += 1;
    }
    let mut a: usize = 0;
    while a < count
        invariant
            len == bet@.len(),
            count == len / 2,
            len >= 2,
            len % 2 == 0,
            a <= count,
            vals@.len() == count as int,
            selector_well_formed(bet@),
            nums_in_range(bet@),
            forall|t: int| 0 <= t < count ==> #[trigger] vals@[t] == num_at(bet@, t),
            forall|x: int, y: int| 0 <= x < y < count && x < a ==> num_at(bet@, x) != num_at(bet@, y),
        decreases count - a,
    {
        let mut b: usize = a + 1;
        while b < count
            invariant
                len == bet@.len(),
                count == len / 2,
                a < count,
                a < b <= count,
                vals@.len() == count as int,
                forall|t: int| 0 <= t < count ==> #[trigger] vals@[t] == num_at(bet@, t),
                forall|y: int| a < y < b ==> num_at(bet@, a as int) != num_at(bet@, y),
            decreases count - b,
        {
            if vals[a] == vals[b] {
                return None;
            }
            b += 1;
        }
        a += 1;
    }
    if count == 1 || count == 2 || count == 3 || count == 4 || count == 6 || count == 12
        || count == 18 {
        Some((36 / count) as u64)
    } else {
        None
    }
}

/// Decides whether the drawn outcome is among the numbers a recognized
/// selector covers.
pub fn selector_covers_outcome(bet: &str, outcome: &str) -> (r: bool)
    requires
        selector_well_formed(bet@),
        outcome_well_formed(outcome@),
    ensures
        r == selector_covers(bet@, outcome_value(outcome@)),
{
    let w1 = outcome.get_char(0) as u32;
    let w0 = outcome.get_char(1) as u32;
    let n: u8 = (10 * (w1 - 48) + (w0 - 48)) as u8;
    let len = bet.unicode_len();
    let count = len / 2;
    let mut j: usize = 0;
    while j < count
        invariant
            len == bet@.len(),
            count == len / 2,
            selector_well_formed(bet@),
            n == outcome_value(outcome@),
            j <= count,
            forall|t: int| 0 <= t < j ==> #[trigger] num_at(bet@, t) != n,
        decreases count - j,
    {
        let c1 = bet.get_char(2 * j) as u32;
        let c0 = bet.get_char(2 * j + 1) as u32;
        let m: u8 = (10 * (c1 - 48) + (c0 - 48)) as u8;
        if m == n {
            proof {
                assert(num_at(bet@, j as int) == n);
            }
            return true;
        }
        j += 1;
    }
    false
}

} // verus!

