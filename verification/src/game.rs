use vstd::prelude::*;

use crate::state::{EvenOddChoice, GuessOneChoice, HighLowChoice};

verus! {

/// Rule evaluator for a simple dice game: stateless win/loss predicates
/// over a die value and a player's choice.
pub struct DiceGame;

/// What the even/odd game returns: the bet wins exactly when the die's
/// parity matches the chosen parity.
pub open spec fn spec_check_even_odd(dice_result: u8, user_choice: EvenOddChoice) -> bool {
    match user_choice {
        EvenOddChoice::Even => dice_result % 2 == 0,
        EvenOddChoice::Odd => dice_result % 2 != 0,
    }
}

/// What the high/low game returns: High wins on a die value of at least 4,
/// Low wins on a die value of at most 3. The two thresholds are literal:
/// outside 1-6 no midpoint split is assumed.
pub open spec fn spec_check_high_low(dice_result: u8, user_choice: HighLowChoice) -> bool {
    match user_choice {
        HighLowChoice::High => dice_result >= 4,
        HighLowChoice::Low => dice_result <= 3,
    }
}

/// What the exact-number game returns: the guess wins exactly when it
/// equals the die value.
pub open spec fn spec_check_exact_number(dice_result: u8, user_guess: u8) -> bool {
    dice_result == user_guess
}

/// What the guess-one game returns: Yes wins exactly when the die shows 1,
/// No wins exactly when it does not.
pub open spec fn spec_check_guess_one(dice_result: u8, user_choice: GuessOneChoice) -> bool {
    match user_choice {
        GuessOneChoice::Yes => dice_result == 1,
        GuessOneChoice::No => dice_result != 1,
    }
}

/// The fixed set of congratulatory messages, by position.
pub open spec fn win_text(i: int) -> Seq<char> {
    if i == 0 {
        "🎉 Поздравляю! Вы угадали!"@
    } else if i == 1 {
        "🎊 Отлично! Правильный ответ!"@
    } else if i == 2 {
        "✨ Великолепно! Вы победили!"@
    } else if i == 3 {
        "🏆 Браво! Точное попадание!"@
    } else {
        "🎯 Превосходно! Вы угадали!"@
    }
}

/// The fixed set of consolation messages, by position.
pub open spec fn lose_text(i: int) -> Seq<char> {
    if i == 0 {
        "😔 Не угадали, но не расстраивайтесь!"@
    } else if i == 1 {
        "🎲 В этот раз не повезло, попробуйте еще!"@
    } else if i == 2 {
        "💪 Ничего страшного, удача улыбнется в следующий раз!"@
    } else if i == 3 {
        "🌟 Не переживайте, у вас все получится!"@
    } else {
        "🎮 Попытка не пытка, играем еще!"@
    }
}

/// Relies on rand::Rng::gen_range over a thread-local generator: it returns
/// a value of the given half-open range, and panics only when the range is
/// empty. The draw is random, so nothing beyond the bound is stated.
#[verifier::external_body]
fn random_index_below(bound: usize) -> (index: usize)
    requires
        bound > 0,
    ensures
        index < bound,
{
    let mut rng = rand::thread_rng();
    rand::Rng::gen_range(&mut rng, 0..bound)
}

/// The fixed tag announcing that the first (bot) die won the comparison.
pub open spec fn bot_wins_text() -> Seq<char> {
    "🤖 Компьютер победил!"@
}

/// The fixed tag announcing that the second (player) die won the comparison.
pub open spec fn user_wins_text() -> Seq<char> {
    "🎉 Пользователь победил!"@
}

/// The fixed tag announcing a tie.
pub open spec fn tie_text() -> Seq<char> {
    "🤝 Ничья!"@
}

/// What the two-die comparison returns: strictly greater wins, equal values
/// tie. The first argument is the bot's die, the second the player's.
pub open spec fn spec_compare_dices(bot_dice: u8, user_dice: u8) -> Seq<char> {
    if bot_dice > user_dice {
        bot_wins_text()
    } else if user_dice > bot_dice {
        user_wins_text()
    } else {
        tie_text()
    }
}

impl DiceGame {
    /// Decides the even/odd game. Total over all `u8` values: a die value
    /// outside 1-6 is still evaluated by the same parity rule.
    pub fn check_even_odd(dice_result: u8, user_choice: EvenOddChoice) -> (won: bool)
        ensures
            won == spec_check_even_odd(dice_result, user_choice),
            user_choice is Even ==> won == (dice_result % 2 == 0),
            user_choice is Odd ==> won == (dice_result % 2 != 0),
    {
        let is_even = dice_result % 2 == 0;
        match user_choice {
            EvenOddChoice::Even => is_even,
            EvenOddChoice::Odd => !is_even,
        }
    }

    /// Decides the high/low game by the literal thresholds `>= 4` and
    /// `<= 3`. Total over all `u8` values; the two bets are complementary
    /// only on the die's conventional domain 1-6.
    pub fn check_high_low(dice_result: u8, user_choice: HighLowChoice) -> (won: bool)
        ensures
            won == spec_check_high_low(dice_result, user_choice),
            user_choice is High ==> won == (dice_result >= 4),
            user_choice is Low ==> won == (dice_result <= 3),
    {
        match user_choice {
            HighLowChoice::High => dice_result >= 4,
            HighLowChoice::Low => dice_result <= 3,
        }
    }

    /// Decides the exact-number game: plain equality, with no range check
    /// on either the die value or the guess.
    pub fn check_exact_number(dice_result: u8, user_guess: u8) -> (won: bool)
        ensures
            won == spec_check_exact_number(dice_result, user_guess),
            won == (dice_result == user_guess),
    {
        dice_result == user_guess
    }

    /// Decides the guess-one game. Total over all `u8` values.
    pub fn check_guess_one(dice_result: u8, user_choice: GuessOneChoice) -> (won: bool)
        ensures
            won == spec_check_guess_one(dice_result, user_choice),
            user_choice is Yes ==> won == (dice_result == 1),
            user_choice is No ==> won == (dice_result != 1),
    {
        let is_one = dice_result == 1;
        match user_choice {
            GuessOneChoice::Yes => is_one,
            GuessOneChoice::No => !is_one,
        }
    }

    /// The congratulatory message at a given position of the fixed
    /// five-element set.
    pub fn win_message_at(index: usize) -> (message: &'static str)
        requires
            index < 5,
        ensures
            message@ == win_text(index as int),
    {
        if index == 0 {
            "🎉 Поздравляю! Вы угадали!"
        } else if index == 1 {
            "🎊 Отлично! Правильный ответ!"
        } else if index == 2 {
            "✨ Великолепно! Вы победили!"
        } else if index == 3 {
            "🏆 Браво! Точное попадание!"
        } else {
            "🎯 Превосходно! Вы угадали!"
        }
    }

    /// The consolation message at a given position of the fixed
    /// five-element set.
    pub fn lose_message_at(index: usize) -> (message: &'static str)
        requires
            index < 5,
        ensures
            message@ == lose_text(index as int),
    {
        if index == 0 {
            "😔 Не угадали, но не расстраивайтесь!"
        } else if index == 1 {
            "🎲 В этот раз не повезло, попробуйте еще!"
        } else if index == 2 {
            "💪 Ничего страшного, удача улыбнется в следующий раз!"
        } else if index == 3 {
            "🌟 Не переживайте, у вас все получится!"
        } else {
            "🎮 Попытка не пытка, играем еще!"
        }
    }

    /// Picks a congratulatory message with a fresh uniform draw on every
    /// call. Whatever the draw returns, the result is one of the fixed
    /// five-element winning set.
    pub fn win_message() -> (message: &'static str)
        ensures
            exists|i: int| 0 <= i < 5 && message@ == win_text(i),
    {
        let index = random_index_below(5);
        let message = Self::win_message_at(index);
        proof {
            assert(index < 5 && message@ == win_text(index as int));
        }
        message
    }

    /// Picks a consolation message with a fresh uniform draw on every call.
    /// Whatever the draw returns, the result is one of the fixed
    /// five-element losing set.
    pub fn lose_message() -> (message: &'static str)
        ensures
            exists|i: int| 0 <= i < 5 && message@ == lose_text(i),
    {
        let index = random_index_below(5);
        let message = Self::lose_message_at(index);
        proof {
            assert(index < 5 && message@ == lose_text(index as int));
        }
        message
    }

    /// Compares the two dice: the strictly greater value wins, equal values
    /// tie. Returns one of exactly three fixed tags; the first argument is
    /// the bot's die, the second the player's.
    pub fn compare_dices(bot_dice: u8, user_dice: u8) -> (message: &'static str)
        ensures
            message@ == spec_compare_dices(bot_dice, user_dice),
            bot_dice > user_dice ==> message@ == bot_wins_text(),
            user_dice > bot_dice ==> message@ == user_wins_text(),
            bot_dice == user_dice ==> message@ == tie_text(),
    {
        if bot_dice > user_dice {
            "🤖 Компьютер победил!"
        } else if user_dice > bot_dice {
            "🎉 Пользователь победил!"
        } else {
            "🤝 Ничья!"
        }
    }
}

/// On any die value the two parity bets are complementary: Even wins
/// exactly when Odd loses.
pub proof fn lemma_even_odd_complementary(dice_result: u8)
    requires
        1 <= dice_result <= 6,
    ensures
        spec_check_even_odd(dice_result, EvenOddChoice::Even) == !spec_check_even_odd(
            dice_result,
            EvenOddChoice::Odd,
        ),
{
}

/// On the die's domain 1-6 the two bets High and Low are complementary:
/// High wins exactly when Low loses.
pub proof fn lemma_high_low_complementary(dice_result: u8)
    requires
        1 <= dice_result <= 6,
    ensures
        spec_check_high_low(dice_result, HighLowChoice::High) == !spec_check_high_low(
            dice_result,
            HighLowChoice::Low,
        ),
{
}

/// The exact-number game is won by the guess equal to the die value and by
/// no other guess.
pub proof fn lemma_exact_number_exact(dice_result: u8)
    requires
        1 <= dice_result <= 6,
    ensures
        spec_check_exact_number(dice_result, dice_result),
        forall|guess: u8| guess != dice_result ==> !spec_check_exact_number(dice_result, guess),
{
}

/// Swapping the two dice swaps the winning side: equal dice tie either way,
/// and whichever side's die is strictly greater wins in both orders.
pub proof fn lemma_compare_dices_swap(first: u8, second: u8)
    ensures
        first == second ==> spec_compare_dices(first, second) == tie_text()
            && spec_compare_dices(second, first) == tie_text(),
        first > second ==> spec_compare_dices(first, second) == bot_wins_text()
            && spec_compare_dices(second, first) == user_wins_text(),
        second > first ==> spec_compare_dices(first, second) == user_wins_text()
            && spec_compare_dices(second, first) == bot_wins_text(),
{
}

/// The winning and losing message sets are disjoint: no congratulatory
/// message is ever a consolation message.
pub proof fn lemma_message_sets_disjoint()
    ensures
        forall|i: int, j: int| 0 <= i < 5 && 0 <= j < 5 ==> win_text(i) != lose_text(j),
{
    reveal_strlit("🎉 Поздравляю! Вы угадали!");
    reveal_strlit("🎊 Отлично! Правильный ответ!");
    reveal_strlit("✨ Великолепно! Вы победили!");
    reveal_strlit("🏆 Браво! Точное попадание!");
    reveal_strlit("🎯 Превосходно! Вы угадали!");
    reveal_strlit("😔 Не угадали, но не расстраивайтесь!");
    reveal_strlit("🎲 В этот раз не повезло, попробуйте еще!");
    reveal_strlit("💪 Ничего страшного, удача улыбнется в следующий раз!");
    reveal_strlit("🌟 Не переживайте, у вас все получится!");
    reveal_strlit("🎮 Попытка не пытка, играем еще!");
    assert forall|i: int, j: int| 0 <= i < 5 && 0 <= j < 5 implies win_text(i) != lose_text(
        j,
    ) by {
        assert(win_text(i)[0] != lose_text(j)[0]);
    }
}

/// The even/odd game is a pure function of its inputs: any two results that
/// meet `check_even_odd`'s contract on identical inputs are equal.
pub proof fn lemma_check_even_odd_deterministic(
    dice_result: u8,
    user_choice: EvenOddChoice,
    first: bool,
    second: bool,
)
    requires
        first == spec_check_even_odd(dice_result, user_choice),
        second == spec_check_even_odd(dice_result, user_choice),
    ensures
        first == second,
{
}

/// The high/low game is a pure function of its inputs: any two results that
/// meet `check_high_low`'s contract on identical inputs are equal.
pub proof fn lemma_check_high_low_deterministic(
    dice_result: u8,
    user_choice: HighLowChoice,
    first: bool,
    second: bool,
)
    requires
        first == spec_check_high_low(dice_result, user_choice),
        second == spec_check_high_low(dice_result, user_choice),
    ensures
        first == second,
{
}

/// The exact-number game is a pure function of its inputs: any two results
/// that meet `check_exact_number`'s contract on identical inputs are equal.
pub proof fn lemma_check_exact_number_deterministic(
    dice_result: u8,
    user_guess: u8,
    first: bool,
    second: bool,
)
    requires
        first == spec_check_exact_number(dice_result, user_guess),
        second == spec_check_exact_number(dice_result, user_guess),
    ensures
        first == second,
{
}

/// The guess-one game is a pure function of its inputs: any two results
/// that meet `check_guess_one`'s contract on identical inputs are equal.
pub proof fn lemma_check_guess_one_deterministic(
    dice_result: u8,
    user_choice: GuessOneChoice,
    first: bool,
    second: bool,
)
    requires
        first == spec_check_guess_one(dice_result, user_choice),
        second == spec_check_guess_one(dice_result, user_choice),
    ensures
        first == second,
{
}

} // verus!
