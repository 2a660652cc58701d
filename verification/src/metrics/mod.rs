//! Metrics of the bot.
pub mod prometheus;
pub mod prometheus_collector;
pub mod influx;
pub mod influx_collector;
