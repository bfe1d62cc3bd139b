use vstd::prelude::*;

verus! {

/// Where a prediction lies relative to the value it should have matched.
#[derive(PartialEq, Eq, Structural, Debug, Clone, Copy)]
pub enum ErrorSign {
    /// The prediction is above the real value (positive error).
    Above,
    /// The prediction is below the real value (negative error).
    Below,
    /// Neither above nor below: the error is zero or not a number.
    Level,
}

/// The fixed-size move that the naive trainer applies to both the weight and
/// the bias.
#[derive(PartialEq, Eq, Structural, Debug, Clone, Copy)]
pub enum Nudge {
    /// Subtract one step from weight and bias.
    Lower,
    /// Add one step to weight and bias.
    Raise,
    /// Leave weight and bias as they are.
    Hold,
}

/// The sign of an error as an integer: `1` above, `-1` below, `0` level.
pub open spec fn sign_value(sign: ErrorSign) -> int {
    match sign {
        ErrorSign::Above => 1,
        ErrorSign::Below => -1,
        ErrorSign::Level => 0,
    }
}

/// The direction of a nudge as an integer: `1` raise, `-1` lower, `0` hold.
pub open spec fn nudge_value(nudge: Nudge) -> int {
    match nudge {
        Nudge::Lower => -1,
        Nudge::Raise => 1,
        Nudge::Hold => 0,
    }
}

/// The naive trainer's rule: move the parameters one fixed step against the
/// error, and not at all when there is no error.
pub fn naive_nudge(sign: ErrorSign) -> (nudge: Nudge)
    ensures
        nudge_value(nudge) == -sign_value(sign),
{
    match sign {
        ErrorSign::Above => Nudge::Lower,
        ErrorSign::Below => Nudge::Raise,
        ErrorSign::Level => Nudge::Hold,
    }
}

/// The naive rule never moves with the error: it moves against it exactly
/// when there is one, and opposite errors get opposite moves.
pub proof fn lemma_nudge_opposes_error(a: ErrorSign, b: ErrorSign, na: Nudge, nb: Nudge)
    requires
        nudge_value(na) == -sign_value(a),
        nudge_value(nb) == -sign_value(b),
    ensures
        sign_value(a) * nudge_value(na) <= 0,
        (na == Nudge::Hold) <==> (a == ErrorSign::Level),
        sign_value(a) == -sign_value(b) ==> nudge_value(na) == -nudge_value(nb),
{
}

} // verus!
