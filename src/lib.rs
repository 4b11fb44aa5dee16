//! Rock-paper-scissors match arbitration over a fixed-width binary record.
pub mod error;
pub mod game;
pub mod instruction;
pub mod processor;
