//! Lawn-care advisory library.
//!
//! The heart of the crate is the agronomic recommendation engine: a fixed,
//! ordered set of pure decision rules that read an environmental summary
//! (current reading, 7-day rolling averages, soil-temperature trend and an
//! optional weather forecast), a lawn profile and an application history, and
//! emit prioritized, explainable recommendations.
//!
//! All measurements are carried as fixed-point integers in thousandths of
//! their unit (thousandths of a degree Fahrenheit, of a percent, of a
//! millimetre, and so on), so every threshold comparison and every average is
//! exact integer arithmetic. Calendar dates are plain year/month/day values
//! with verified Gregorian arithmetic; the current date and time are explicit
//! parameters of every evaluation, never read from a clock.

pub mod application;
pub mod calculations;
pub mod config;
pub mod dates;
pub mod environmental;
pub mod forecast;
pub mod laws;
pub mod num;
pub mod profile;
pub mod recommendation;
pub mod rules;
pub mod text;
pub mod ui;
