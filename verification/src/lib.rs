//! Prayer times: the calendar, the methods and their parameters, the times
//! of a day from its solved hours, their tuning, and what follows from
//! them. The position of the sun is solved with real numbers, outside this
//! library; everything here works on whole numbers.
pub mod calculator;
pub mod calendar;
pub mod config;
pub mod format;
pub mod highlats;
pub mod iter;
pub mod julian;
pub mod methods;
pub mod schedule;
pub mod serve;
pub mod types;

pub use calculator::Calculator;
