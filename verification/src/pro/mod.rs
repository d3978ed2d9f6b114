pub mod contract;
pub mod laws;
pub mod model;
