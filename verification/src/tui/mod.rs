//! The forecast panels, laid out as lines of text.

pub mod alerts;
pub mod border;
pub mod current;
pub mod dimension;
pub mod hourly;
pub mod next_hour;
pub mod weather;
pub mod weekly;
