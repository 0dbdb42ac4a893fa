//! Harvests accepted contest submissions from a judge site and relays their
//! source text to a file server, one file per problem.
//!
//! The library decides; it does no input or output. A caller connects to
//! the file server and to the judge, and hands the library what came back:
//!
//! - [`token`] and [`client`] build the session cookie, check that it can
//!   be sent as a header, and write the judge's three requests;
//! - [`json`] and [`judge`] read the judge's replies;
//! - [`listing`] and [`relay`] read directory listings, follow the session
//!   with the file server, and name the uploads;
//! - [`harvest`] runs the whole as a state machine, one problem after the
//!   other, and [`laws`] states what holds of every run;
//! - [`text`] and [`error`] hold what the others share.

pub mod client;
pub mod error;
pub mod harvest;
pub mod json;
pub mod judge;
pub mod laws;
pub mod listing;
pub mod relay;
pub mod text;
pub mod token;
