//! A fixed-point model of a household's electrical energy flows and of the
//! demand-response rules that move deferrable load out of the evening peak.
//!
//! Every quantity is an integer. Power is counted in milliwatts. Energy is
//! counted in milliwatt-steps: the energy that one milliwatt delivers over one
//! half-hour step, so that the energy of a step has the same number as the
//! power that was drawn during it. Money is counted in nano-dollars.

pub mod analysis;
pub mod battery;
pub mod clock;
pub mod control;
pub mod controller;
pub mod fairness;
pub mod load;
pub mod models;
pub mod random;
pub mod simulation;
pub mod solar;
