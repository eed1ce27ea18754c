//! The decision-making core of a Windows text service for Japanese input.

use vstd::prelude::*;

pub mod best_effort;
pub mod engine;
pub mod extension;
pub mod failure;
pub mod globals;
pub mod harness;
pub mod register;
pub mod strings;
pub mod trace;
pub mod tsf;

verus! {

} // verus!
