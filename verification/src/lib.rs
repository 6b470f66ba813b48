//! Escrowed work trials settled by a cross-chain verdict.
//!
//! An employer locks the candidate and referral rewards of a trial in a vault,
//! a candidate starts the trial, referrers attach candidates, and a verdict
//! message decides whether the rewards are paid out or the trial is rejected.
//! The modules hold the account model (`state`), the verdict message format
//! (`payload`), the instruction logic (`instructions`) and the laws that tie the
//! instructions together (`laws`).

pub mod state;
pub mod text;
pub mod payload;
pub mod instructions;
pub mod laws;

