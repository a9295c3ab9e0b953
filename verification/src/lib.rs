//! Turns short specifiers of PHP extensions (`builtin:gd`, `pecl:xdebug@2.5.5`)
//! into the package-manager and PHP-toolchain command lines that install them
//! inside a container build.
//!
//! The library is pure: it parses specifiers, resolves their metadata and
//! builds command lines as plain values. Running the commands and reading the
//! process environment are left to the caller.

pub mod text;
pub mod error;
pub mod parse;
pub mod version;
pub mod environment;
pub mod builtin;
pub mod pecl;
pub mod extension;
pub mod system;
