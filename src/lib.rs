//! The decision logic of a weather report tool: unit selection and compass and condition
//! lookups, the configuration record with its file overlay and command-line overrides,
//! and the acquisition state machine that chooses between a live fetch and the cached
//! snapshot.

pub mod acquire;
pub mod config;
pub mod context;
pub mod datahandler;
pub mod history;
pub mod payload;
pub mod text;
