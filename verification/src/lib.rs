//! Decision logic of an editor extension that locates, installs and launches
//! the Lobster language server.

pub mod command;
pub mod extension;
pub mod install;
pub mod label;
pub mod lookup;
pub mod settings;
