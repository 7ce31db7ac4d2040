//! The decisions of an ibapi-compatible client layer, verified.

pub mod text;
pub mod names;
pub mod session;
pub mod wire;
pub mod order_ids;
pub mod scanner;
pub mod withdrawals;
pub mod legs;
pub mod conditions;
pub mod advisor;
pub mod figures;
pub mod market_data;
pub mod dispatch;
pub mod ask;
pub mod completed;
pub mod executions;
pub mod placement;
pub mod account;
pub mod calendar;
pub mod history;
pub mod order_fields;
pub mod definition;
