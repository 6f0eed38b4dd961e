//! A network reachability probe: one measurement loop per target, each
//! reporting round-trip times to a metrics collector.
pub mod decimal;
pub mod report;
pub mod task;
pub mod laws;
pub mod gateway;
pub mod targets;
