//! Snowman: resolve a remote workspace/environment configuration into a set of
//! named variables and hand them to an interactive subshell.
//!
//! The crate holds the verified core of the tool: the data model of the remote
//! service, the decoders for its JSON responses, the credential parser for the
//! local configuration file, the environment materializer, and the activation
//! state machine that sequences them. The unverified binary around it performs
//! the HTTP calls, the interactive prompts and the subshell spawn, and feeds
//! their outcomes back into the state machine as events.

pub mod audit;
pub mod config;
pub mod json;
pub mod materialize;
pub mod model;
pub mod orchestrate;
