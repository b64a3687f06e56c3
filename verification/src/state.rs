use vstd::prelude::*;

verus! {

/// The player's bet on die parity in the even/odd game.
#[derive(Clone, Debug, PartialEq)]
pub enum EvenOddChoice {
    Even,
    Odd,
}

/// The player's bet in the high/low game: High covers 4-6, Low covers 1-3.
#[derive(Clone, Debug, PartialEq)]
pub enum HighLowChoice {
    High,
    Low,
}

/// The player's bet in the guess-one game: Yes bets that the die shows 1.
#[derive(Clone, Debug, PartialEq)]
pub enum GuessOneChoice {
    Yes,
    No,
}

} // verus!
