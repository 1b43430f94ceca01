pub mod model;
pub mod controller;
pub mod planner;
pub mod sweep;
pub mod control;
pub mod registry;
