//! Electricity spot prices for a chat bot: price records, their display, and
//! the cache that decides when a stored answer is still good for the current
//! hour or day.

pub mod cache;
pub mod calendar;
pub mod day_query;
pub mod decimal;
pub mod endpoint;
pub mod error;
pub mod handler;
pub mod hours;
pub mod price_query;
