//! The built-in pattern items, one unit struct per template field, grouped
//! by what they render.

pub mod datetime;
pub mod eol;
pub mod level;
pub mod logger_name;
pub mod payload;
pub mod srcloc;
