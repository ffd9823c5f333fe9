//! Session and worker lifecycle management for a browser-automation command
//! line front end: naming of per-session files, discovery of local sessions,
//! the start-on-demand supervisor, the request/response exchange with a
//! worker, and the lexical split between local and remote session tokens.
pub mod channel;
pub mod classify;
pub mod cloud;
pub mod naming;
pub mod order;
pub mod pid;
pub mod registry;
pub mod supervisor;
pub mod terminate;
pub mod text;
