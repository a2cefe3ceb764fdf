//! Performance-point and star-rating bookkeeping for a four-discipline rhythm
//! game: score attributes, discipline resolution, the fixed order in which
//! attributes reach the engine, decomposition of the engine's tagged output,
//! and the accuracy sweep.
pub mod text;
pub mod value;
pub mod mode;
pub mod calculator;
pub mod result;
pub mod sweep;
pub mod laws;
