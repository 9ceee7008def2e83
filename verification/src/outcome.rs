//! The result of one match, as seen by one of its two competitors.
//!
//! An [`Outcome`] is always stated for one side. Its three encodings are
//! fixed here: the signed score that a rating update moves towards, the
//! position of its probability in a triple ordered win, draw, loss, and
//! its name.

use vstd::prelude::*;

verus! {

/// How a match ended for the competitor it is stated for.
#[derive(Clone, Copy, Debug, PartialEq, Eq, Structural)]
pub enum Outcome {
    Win,
    Draw,
    Loss,
}

impl Outcome {
    /// The same match seen by the other competitor.
    pub open spec fn spec_inv(&self) -> Outcome {
        match *self {
            Outcome::Win => Outcome::Loss,
            Outcome::Draw => Outcome::Draw,
            Outcome::Loss => Outcome::Win,
        }
    }

    /// The outcome as a number: 1 for a win, 0 for a draw, -1 for a loss.
    pub open spec fn score(&self) -> int {
        match *self {
            Outcome::Win => 1,
            Outcome::Draw => 0,
            Outcome::Loss => -1,
        }
    }

    /// Where the outcome stands in the order win, draw, loss.
    pub open spec fn spec_index(&self) -> usize {
        match *self {
            Outcome::Win => 0,
            Outcome::Draw => 1,
            Outcome::Loss => 2,
        }
    }

    /// The characters of the outcome's name.
    pub open spec fn label(&self) -> Seq<char> {
        match *self {
            Outcome::Win => "Win"@,
            Outcome::Draw => "Draw"@,
            Outcome::Loss => "Loss"@,
        }
    }

    /// Turns the outcome round: a win for one side is a loss for the other,
    /// and a draw is a draw for both.
    #[verifier::when_used_as_spec(spec_inv)]
    pub fn inv(&self) -> (other: Self)
        ensures
            other == self.spec_inv(),
            other.spec_inv() == *self,
    {
        match self {
            Self::Win => Self::Loss,
            Self::Draw => Self::Draw,
            Self::Loss => Self::Win,
        }
    }

    /// The position of this outcome's probability in a triple ordered
    /// win, draw, loss. It is always a valid position in such a triple.
    #[verifier::when_used_as_spec(spec_index)]
    pub fn index(&self) -> (i: usize)
        ensures
            i == self.spec_index(),
            i < 3,
    {
        match self {
            Self::Win => 0,
            Self::Draw => 1,
            Self::Loss => 2,
        }
    }
}

impl From<&Outcome> for i8 {
    /// The outcome as a signed number: 1 for a win, 0 for a draw, -1 for a
    /// loss.
    fn from(value: &Outcome) -> (code: i8)
        ensures
            code == value.score(),
    {
        match value {
            Outcome::Win => 1,
            Outcome::Draw => 0,
            Outcome::Loss => -1,
        }
    }
}

impl vstd::std_specs::convert::FromSpecImpl<&Outcome> for i8 {
    open spec fn obeys_from_spec() -> bool {
        true
    }

    open spec fn from_spec(value: &Outcome) -> i8 {
        match *value {
            Outcome::Win => 1i8,
            Outcome::Draw => 0i8,
            Outcome::Loss => -1i8,
        }
    }
}

impl From<&Outcome> for String {
    /// The outcome's name: "Win", "Draw" or "Loss".
    fn from(value: &Outcome) -> (name: String)
        ensures
            name@ == value.label(),
    {
        match value {
            Outcome::Win => "Win".to_owned(),
            Outcome::Draw => "Draw".to_owned(),
            Outcome::Loss => "Loss".to_owned(),
        }
    }
}

/// A `String` is known to the verifier by its view alone, so the conversion
/// is stated by the `ensures` of `from`, over [`Outcome::label`], and not by
/// a value of `from_spec`.
impl vstd::std_specs::convert::FromSpecImpl<&Outcome> for String {
    open spec fn obeys_from_spec() -> bool {
        false
    }

    open spec fn from_spec(value: &Outcome) -> String {
        arbitrary()
    }
}

/// Turning an outcome round twice gives it back, for every outcome.
pub proof fn lemma_inv_involution(outcome: Outcome)
    ensures
        outcome.inv().inv() == outcome,
{
}

/// A draw is a draw for both sides, and it is the only outcome that
/// turning round leaves as it is.
pub proof fn lemma_inv_fixes_only_draw(outcome: Outcome)
    ensures
        Outcome::Draw.inv() == Outcome::Draw,
        outcome.inv() == outcome <==> outcome == Outcome::Draw,
{
}

/// What one side scores, the other side loses: turning an outcome round
/// negates its score.
pub proof fn lemma_inv_negates_score(outcome: Outcome)
    ensures
        outcome.inv().score() == -outcome.score(),
{
}

/// Turning an outcome round mirrors its position in the order win, draw,
/// loss. So the entry that one side reads in a triple is the entry that the
/// other side reads, for the outcome turned round, in the triple reversed.
pub proof fn lemma_inv_mirrors_index(outcome: Outcome)
    ensures
        outcome.inv().index() == 2 - outcome.index(),
{
}

/// The score, the position and the name each identify the outcome: two
/// outcomes that agree in one of them are the same outcome.
pub proof fn lemma_encodings_injective(a: Outcome, b: Outcome)
    ensures
        a.score() == b.score() ==> a == b,
        a.index() == b.index() ==> a == b,
        a.label() == b.label() ==> a == b,
{
    reveal_strlit("Win");
    reveal_strlit("Draw");
    reveal_strlit("Loss");
    if a.label() == b.label() {
        assert(a.label().len() == b.label().len());
        assert(a.label()[0] == b.label()[0]);
    }
}

} // verus!
