pub mod decision;
pub mod paper;
