//! Service monitoring: configuration, scheduling, check evaluation and
//! failure reporting decisions, with their contracts proved by Verus.

pub mod text;
pub mod log;
pub mod defaults;
pub mod prog_settings;
pub mod monitor;
pub mod runtime;
pub mod report_by_email;
