//! Verified core of the pages toolkit: the decisions and data conversions
//! behind the command-line packer, the Node.js bridges and the local
//! listener setup. Everything that touches the operating system, the async
//! runtime or Node.js lives in the application crate that drives this one.

pub mod text;
pub mod channel;
pub mod pipe;
pub mod http_types;
pub mod bridge;
pub mod routes;
pub mod manifest;
pub mod task;
pub mod pack;
pub mod new_project;
pub mod archive;
pub mod cli;
