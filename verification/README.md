# nautilus_bin

Market-making strategies and a parameter optimizer on top of NautilusTrader, with
their decision logic verified in Verus.

- `src/` — the verified library: configuration defaults, sampler selection and the
  stable ordering of trial records, search-space validation and lookup, bounded
  rolling windows and time-based pruning, the order-id set, the quote tracker shared
  by the market makers, the order latch and timer decisions of the Hurst/VPIN
  strategy, the worst-case exposure of a market maker and the position cap on its
  quote grid, and the resolution of study settings (sampler included) from
  configuration and flags.
- `app/` — the optimizer program and the strategies: everything that reads files,
  talks to the trading engine or the optimization framework, or computes with
  floating-point values, calling into the library for the decisions above.
- `tests/` — tests of the library.
