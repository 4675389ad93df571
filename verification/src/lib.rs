//! A proving worker: pools of proving threads, atomic proof accounting,
//! rolling throughput windows and cooperative shutdown.

pub mod attempt;
pub mod counter;
pub mod history;
pub mod ledger;
pub mod lifecycle;
pub mod pool;
pub mod prover;
pub mod rate;
pub mod text;
pub mod work;
