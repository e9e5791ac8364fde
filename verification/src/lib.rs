//! Search for the best settings of a hardware video encoder: the candidate
//! settings of each encoder family, the state machines that supervise one
//! encode and the whole search, and the statistics taken from them.

pub mod cli;
pub mod codecs;
pub mod engine;
pub mod ffmpeg;
pub mod permutation;
pub mod text;
