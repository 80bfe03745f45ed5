//! Adaptive-concurrency throughput measurement: the decisions of a speed test,
//! kept apart from the threads, sockets and clocks that carry them out.
//!
//! A measurement runs two phases, download and upload ([`orchestrator`]).
//! Each phase is driven by a [`controller`]: it starts a few workers, reads
//! the shared byte [`counter`] once per tick, keeps the samples and reads
//! their [`trend`], adds a worker while throughput is still climbing, and at
//! the deadline raises the stop signal and waits for every worker. What a
//! worker does between two reads or two sessions is in [`download`] and
//! [`upload`], with the read sizes in [`chunk`] and the failures in
//! [`error`]. The fixed values are in [`config`], and [`steady`] follows a
//! phase at constant throughput from its first tick to its stop signal.
//!
//! Around the measurement: the wall [`clock`], the [`latency`] probes, what
//! the service tells about client and server ([`metadata`]), and rates in
//! readable [`units`].

pub mod chunk;
pub mod clock;
pub mod config;
pub mod controller;
pub mod counter;
pub mod download;
pub mod error;
pub mod latency;
pub mod metadata;
pub mod orchestrator;
pub mod steady;
pub mod trend;
pub mod units;
pub mod upload;
