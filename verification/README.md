# black-76

Black-76 closed-form pricing, Greeks, and implied-volatility solver for
European options on forwards and futures.

## Layout

- `src/` — the verified library (Verus). It holds what the model decides
  without floating point: the option type and the solver's method and status
  vocabulary (`types`), the volatility smile's quality tiering and the choice
  of the observed strikes that bracket a target strike (`vol_surface`), and
  the probability-method tag (`digital`). Every function there carries an
  exact contract.
- `app/` — the `f64` numerics on top of it: pricing, Greeks, the
  Newton-Raphson / Brent implied-volatility solver, the smile's filtering and
  interpolation, and risk-neutral probability extraction (with `statrs` for
  the normal distribution and `serde` derives on the public types).
- `tests/` — tests of the verified library.
