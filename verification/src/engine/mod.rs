//! Running trials: supervising one encode, taking its statistics, and
//! walking the whole search.

pub mod benchmark_engine;
pub mod engine;
pub mod fps_stats;
pub mod permutation_engine;
pub mod progressbar;
pub mod result;
pub mod stat_tcp_listener;
