//! Deterministic resolution of JavaScript module specifiers and package entry points.
//!
//! The library never touches the file system. Where a path has to be canonicalized it
//! hands the path out and takes the answer back as a plain value, so every decision it
//! makes is a function of its arguments.
//!
//! - [`manifest`]: the manifest of a package and its schema.
//! - [`entrypoint`]: the names a package exports and the files they stand for.
//! - [`registry`]: the exported names of all scanned packages.
//! - [`resolver`]: from an importing file and an import string to a file.
//! - [`bundle`]: what else the bundler asks: which file to read, and how many modules
//!   may come out.
//! - [`identity`], [`error`], [`paths`]: the values all of these speak of.
//! - [`laws`]: what holds of them together.

pub mod bundle;
pub mod entrypoint;
pub mod error;
pub mod identity;
pub mod laws;
pub mod manifest;
pub mod paths;
pub mod registry;
pub mod resolver;
