//! Japanese national holiday calendar.
//!
//! The library decides whether a calendar date is a public holiday under
//! Japanese law, resolves the holiday's name, and enumerates the holidays
//! of a date range, a month or a year.  The rule set covers the fixed-date
//! holidays, the effective-year ranges of the amended laws, the
//! nth-Monday ("happy Monday") rules, the equinox days computed by the
//! usual linear approximation, the one-off ceremonial dates, and the two
//! derived layers: substitute holidays and sandwiched national holidays.

pub mod date;
pub mod holidays;
pub mod jpholiday;
pub mod registry;
pub mod utils;
