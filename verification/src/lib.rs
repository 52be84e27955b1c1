//! A small library of time tools: render the current UTC time, parse an
//! RFC 2822 timestamp, and apply a signed offset to a timestamp.  Each tool
//! produces a two-field payload (`utc_time` as a decimal string and
//! `utc_time_rfc2822` as a formatted string); a dispatcher selects a tool by
//! name, and a catalog describes the three tools and their argument schemas.

pub mod decimal;
pub mod strutil;
pub mod jsontext;
pub mod timefmt;
pub mod ops;
pub mod args;
pub mod dispatch;
pub mod catalog;
pub mod laws;
