//! Per-expiry implied-volatility smile: the quality tier a smile earns from
//! its number of usable strikes, and the choice of the observed strikes that
//! bracket a target strike.

use vstd::prelude::*;

verus! {

/// Quality tier reflecting vol-smile reliability.
#[derive(Debug, Clone, Copy, PartialEq, Eq, Structural)]
pub enum SmileQuality {
    /// `good_strike_count` or more usable strikes: reliable interpolation.
    Good,
    /// Between `min_usable_strikes` and `good_strike_count - 1` usable
    /// strikes: minimum for interpolation.
    Minimum,
    /// Fewer than `min_usable_strikes`: falls back to flat ATM vol.
    Degraded,
    /// Zero usable strikes: no data.
    Empty,
}

impl SmileQuality {
    /// The tier of a smile with `count` usable strikes: `Empty` when there
    /// are none, `Degraded` below `min_usable_strikes`, `Good` from
    /// `good_strike_count` on, and `Minimum` in between.
    pub fn for_count(count: usize, min_usable_strikes: usize, good_strike_count: usize) -> (q:
        SmileQuality)
        ensures
            q == SmileQuality::Empty <==> count == 0,
            q == SmileQuality::Degraded <==> 0 < count < min_usable_strikes,
            q == SmileQuality::Good <==> (count != 0 && count >= min_usable_strikes && count
                >= good_strike_count),
            q == SmileQuality::Minimum <==> (count != 0 && min_usable_strikes <= count
                < good_strike_count),
    {
        if count == 0 {
            SmileQuality::Empty
        } else if count < min_usable_strikes {
            SmileQuality::Degraded
        } else if count >= good_strike_count {
            SmileQuality::Good
        } else {
            SmileQuality::Minimum
        }
    }
}

/// Chooses the observed strikes that bracket a target strike, by their
/// positions in a smile of `len` points sorted by strike.
///
/// - `inside`: the target lies strictly between the first and the last
///   observed strike;
/// - `idx`: the number of observed strikes below the target (the partition
///   point of the sorted strikes);
/// - `on_grid`: the strike at position `idx` is the target itself.
///
/// Returns the positions `(lower, upper)` of the bracketing strikes. Off the
/// grid these are the neighbours `idx - 1` and `idx`; on the grid they are
/// the neighbours on both sides, `idx - 1` and `idx + 1`, so that the pair
/// straddles the target. Returns `None` with fewer than two points, when the
/// target is not strictly inside the smile, or when no neighbour exists on
/// one side.
pub fn bracket_indices(len: usize, idx: usize, inside: bool, on_grid: bool) -> (r: Option<
    (usize, usize),
>)
    ensures
        r is Some <==> (len >= 2 && inside && 0 < idx < len && (on_grid ==> idx + 1 < len)),
        r matches Some((lower, upper)) ==> {
            &&& lower + 1 == idx
            &&& upper == (if on_grid {
                idx + 1
            } else {
                idx as int
            })
            &&& lower < idx <= upper < len
        },
{
    if len < 2 || !inside {
        return None;
    }
    if idx < len && on_grid {
        if idx == 0 || idx >= len - 1 {
            return None;
        }
        return Some((idx - 1, idx + 1));
    }
    if idx == 0 || idx >= len {
        return None;
    }
    Some((idx - 1, idx))
}

} // verus!
