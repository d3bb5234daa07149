pub mod cdm;
pub mod celestrak;
pub mod spacetrack;
