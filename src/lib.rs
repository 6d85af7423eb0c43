//! Nonlinear least-squares fitting of named model functions: the model
//! registry, the vary mask, input validation and the Levenberg-Marquardt
//! control state machine.

pub mod registry;
pub mod mask;
pub mod validate;
pub mod control;
pub mod result;
pub mod model;
