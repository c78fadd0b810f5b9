//! Core types: `OptionType`, `SolverMethod`, `SolverStatus`.

use vstd::prelude::*;

verus! {

/// Option type: call or put.
#[derive(Debug, Clone, Copy, PartialEq, Eq, Hash, Structural)]
pub enum OptionType {
    /// European call option (right to buy at strike).
    Call,
    /// European put option (right to sell at strike).
    Put,
}

impl OptionType {
    /// Returns `true` if this is a call.
    pub fn is_call(self) -> (r: bool)
        ensures
            r <==> self == OptionType::Call,
    {
        matches!(self, OptionType::Call)
    }

    /// The name of the option type: `"Call"` or `"Put"`.
    pub fn to_string(self) -> (s: String)
        ensures
            self == OptionType::Call ==> s@ == "Call"@,
            self == OptionType::Put ==> s@ == "Put"@,
    {
        match self {
            OptionType::Call => "Call".to_owned(),
            OptionType::Put => "Put".to_owned(),
        }
    }
}

/// Method used by the implied-volatility solver.
#[derive(Debug, Clone, Copy, PartialEq, Eq, Hash, Structural)]
pub enum SolverMethod {
    /// Newton-Raphson iteration.
    NewtonRaphson,
    /// Brent's method (bracketed root-finding).
    Brent,
}

/// Why the implied-volatility solver returned: the precise outcome behind a
/// (non-)convergence. A result converged exactly when its status is
/// `Converged`; on every other status no volatility is reported.
#[derive(Debug, Clone, Copy, PartialEq, Eq, Hash, Structural)]
pub enum SolverStatus {
    /// A volatility was found within tolerance.
    Converged,
    /// Time to expiry was below the near-expiry cutoff; the option should be
    /// priced intrinsically and no implied volatility is solved.
    NearExpiryIntrinsic,
    /// The market price was zero or negative: no implied volatility exists.
    NonPositivePrice,
    /// The market price was below the discounted intrinsic value (the
    /// Black-76 no-arbitrage lower bound).
    BelowIntrinsic,
    /// No root exists in `[iv_min, iv_max]`.
    NoBracketInRange,
    /// Vega is below the floor, so the volatility is not identifiable from
    /// the price.
    NotIdentifiable,
    /// The iteration budget was exhausted before the volatility-space
    /// tolerance was met.
    MaxIterations,
}

} // verus!
