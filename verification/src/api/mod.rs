pub mod conjunctions;
pub mod tle;
