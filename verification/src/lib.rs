//! Core engine of an escalator-status tracking bot: the registry of valid
//! escalators, per-escalator status records, report classification, the
//! outdated sweeper, the aggregation engine, and a bounded broadcast bus that
//! fans updates out to independently paced consumers.

pub mod status;
pub mod kind;
pub mod escalator;
pub mod record;
pub mod input;
pub mod report;
pub mod bus;
pub mod statuses;
pub mod channels;
pub mod generate;
pub mod component;
pub mod alerts;
pub mod announce;
pub mod schedule;
pub mod history_channel;
