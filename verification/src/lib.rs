//! A UK Stamp Duty Land Tax (SDLT) calculator, verified, together with the
//! data and dispatch logic of the MCP tool server built around it.
//!
//! Money is held exactly: a property value is a whole number of pence and a
//! tax amount a whole number of centipence (hundredths of a penny), so the
//! marginal percentages of the ladder are exact integer arithmetic.

pub mod sdlt;
pub mod server;
pub mod text;
