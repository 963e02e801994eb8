//! A system information banner: a handful of facts about the machine, laid out
//! beside a block of ASCII art in two aligned columns.
//!
//! The library is the part that decides and formats. It takes what the system
//! returned as plain values, resolves each fact under its failure policy
//! ([`facts`]), lays the facts out beside the art ([`layout`]) in the colours
//! asked for ([`color`]), and hands back the lines to print and the status to
//! exit with ([`report`]). Padding goes by display width ([`width`]), measured
//! before any styling.

pub mod color;
pub mod facts;
pub mod layout;
pub mod report;
pub mod text;
pub mod width;
