//! The two scores and the text that shows each of them.
use vstd::prelude::*;
use vstd::string::StringExecFns;

verus! {

/// Points won by each side.
#[derive(Clone, Copy, Debug, PartialEq, Eq, Structural)]
pub struct Scoreboard {
    pub left_score: u64,
    pub right_score: u64,
}

/// The character of a decimal digit.
pub open spec fn digit_char(d: nat) -> char {
    seq!['0', '1', '2', '3', '4', '5', '6', '7', '8', '9'][d as int]
}

/// The decimal numeral of `n`, without sign or leading zeros.
pub open spec fn decimal(n: nat) -> Seq<char>
    decreases n,
{
    if n < 10 {
        seq![digit_char(n)]
    } else {
        decimal(n / 10).push(digit_char(n % 10))
    }
}

/// The text that displays a score.
pub open spec fn score_label(score: nat) -> Seq<char> {
    seq!['S', 'c', 'o', 'r', 'e', ':', ' '] + decimal(score)
}

/// Relies on the standard `ToString` of `u64`, through its `Display`: the
/// decimal numeral of the number.
#[verifier::external_body]
fn decimal_string(n: u64) -> (r: String)
    ensures
        r@ == decimal(n as nat),
{
    n.to_string()
}

/// The text that displays `score`: `"Score: "` followed by its numeral.
pub fn score_text(score: u64) -> (r: String)
    ensures
        r@ == score_label(score as nat),
{
    let digits = decimal_string(score);
    let prefix = String::from_str("Score: ");
    proof {
        reveal_strlit("Score: ");
    }
    prefix.concat(digits.as_str())
}

impl Scoreboard {
    /// Both scores at zero.
    pub fn new() -> (r: Scoreboard)
        ensures
            r.left_score == 0,
            r.right_score == 0,
    {
        Scoreboard { left_score: 0, right_score: 0 }
    }

    /// The text of the display at `index`: the left score at index 0, the
    /// right score at any other.
    pub fn display_text(&self, index: usize) -> (r: String)
        ensures
            index == 0 ==> r@ == score_label(self.left_score as nat),
            index != 0 ==> r@ == score_label(self.right_score as nat),
    {
        let score = if index == 0 { self.left_score } else { self.right_score };
        score_text(score)
    }
}

} // verus!
