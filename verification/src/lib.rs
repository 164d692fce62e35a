//! Decision logic of the market-making strategies and of the parameter optimizer:
//! configuration defaults, sampler selection, search-space validation, bounded
//! signal windows, order-id bookkeeping, worst-case exposure and the position cap
//! on the quote grid, and the timer/latch state machines.

pub mod adapters;
pub mod config;
pub mod exposure;
pub mod latch;
pub mod order_ids;
pub mod overrides;
pub mod param;
pub mod quoting;
pub mod sampler;
pub mod signals;
pub mod text;
pub mod window;
