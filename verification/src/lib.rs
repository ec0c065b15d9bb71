//! AlphaScout: heuristic risk reads and new-launch scouting over
//! Dexscreener pair data, with the decision logic verified by Verus.
pub mod clock;
pub mod engine;
pub mod gate;
pub mod market;
pub mod ranking;
pub mod risk;
pub mod text;
pub mod thesis;
pub mod tool;
pub mod urls;
