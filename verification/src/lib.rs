//! Verified core of the productized desktop shell: attempt-scoped execution
//! grants, the prepared-attempt state machine, the authorized dispatch chain,
//! runtime admission joins, project summaries, the exact-chain loader of the
//! ordinary control run, and the validation rules of the organization consult
//! and advisory flows.

pub mod text;
pub mod outside;
pub mod identity;
pub mod attempt;
pub mod grant;
pub mod gateway;
pub mod records;
pub mod orchestration;
pub mod m3_identity;
pub mod admission;
pub mod ports;
pub mod side_effect;
pub mod receipt;
pub mod registry;
pub mod dto;
pub mod summary;
pub mod control;

pub mod calendar;
pub mod order;
pub mod advisory;
pub mod consult;
pub mod dispatch;
pub mod supervisor;
