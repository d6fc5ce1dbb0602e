//! A prediction market priced by a logarithmic market scoring rule (LMSR),
//! with the market's lifecycle (creation, trading, resolution and claims)
//! written as plain state transitions.

pub mod lmsr;
pub mod circuits;
pub mod state;
pub mod error;
pub mod computation;
pub mod program;
pub mod address;
