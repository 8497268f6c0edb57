//! Credential resolution, instance discovery and host bookkeeping for a
//! remote-access helper, with every rule stated as a contract.

pub mod aws;
pub mod commands;
pub mod config;
pub mod describe_instances;
pub mod executable;
pub mod history;
pub mod name_map;
pub mod not_empty_string;
pub mod option_not_empty_string;
pub mod parsers;
pub mod prelude;
pub mod select;
pub mod ssh;
pub mod teleport;
pub mod text;
pub mod xml;
