//! A pattern-based vulnerability scanner for compiled smart-contract
//! functions. The core is a reentrancy detector that correlates, across the
//! basic blocks of one function, a balance-read call, a value-transfer call,
//! and a later write to the balance. Three simpler detectors flag single
//! dangerous API references (randomness sources, clock sources, rounding).

pub mod cfg;
pub mod detector;
pub mod flags;
pub mod reentrancy;
pub mod signatures;
