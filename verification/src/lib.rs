//! A verified core for a host-metrics sampling and fan-out engine.
//!
//! A background sampler assembles one immutable [`types::SystemStats`]
//! snapshot per tick from plain readings ([`snapshot::assemble_snapshot`])
//! and hands it to a bounded-backlog broadcast distributor
//! ([`monitor::SystemMonitor`]), from which any number of independent
//! subscribers read the snapshots in publish order.

pub mod monitor;
pub mod snapshot;
pub mod types;
