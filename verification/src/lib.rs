//! Git working-tree inspection and commit-message generation, as a verified
//! library: the parsing, planning and decoding rules live here, and the
//! embedding program runs the processes and the HTTP calls.

pub mod commit;
pub mod diff;
pub mod failure;
pub mod json;
pub mod models;
pub mod provider;
pub mod reply;
pub mod request;
pub mod shell;
pub mod startup;
pub mod status;
pub mod text;
