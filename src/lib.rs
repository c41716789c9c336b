//! Monte Carlo estimation of how often simple guessing strategies predict
//! correctly whether a second random draw lies above or below a first one.
pub mod decision;
pub mod evaluator;
pub mod sampler;
pub mod strategy;
