//! A small in-memory scheduling engine: stores of schedulable items (todos,
//! tasks, events) with stable monotone identities, soft removal, and
//! date/weekday scoped queries.

pub mod date;
pub mod items;
pub mod schedule;
pub mod store;
pub mod text;
