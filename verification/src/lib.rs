//! Planning and decision logic for provisioning a self-contained Python
//! runtime: an embeddable interpreter is fetched, verified and unpacked, its
//! search path is fixed, the package manager is bootstrapped, packages are
//! installed and compiled, and what is not needed at run time is removed.
//!
//! The library does none of this itself. `provision` holds the run as a
//! state machine that says what to do next and takes in what came of it;
//! the other modules hold the rules that the machine applies, each stated
//! as a contract. `laws` holds what is proved of every run.

pub mod archive;
pub mod cleanup;
pub mod command;
pub mod config;
pub mod download;
pub mod error;
pub mod form;
pub mod hash;
pub mod laws;
pub mod number;
pub mod output;
pub mod pattern;
pub mod provision;
pub mod pth;
pub mod record;
pub mod release;
pub mod sink;
pub mod text;

pub use config::Config;
pub use error::Error;
pub use provision::run;
