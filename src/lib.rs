//! A host-monitoring agent's engine: metric sources are polled on a
//! schedule, each sample goes through a bounded window per alarm, alarms
//! are evaluated against threshold conditions, and entries into the alarm
//! state become notifications. Reading the operating system, delivering
//! notifications and persisting data points are left to the caller, which
//! hands this library plain values and acts on what it returns.
use vstd::prelude::*;

pub mod collector;
pub mod commons;
pub mod config;
pub mod consumer;
pub mod control;
pub mod errors;
pub mod metric;
pub mod notifications;
pub mod opsgenie;
pub mod render;
pub mod service;
