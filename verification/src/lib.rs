//! Generates the configuration headers and forwarding headers that a module
//! of the Qt sources needs in order to be compiled without Qt's own build
//! system, and says what the compiler is to be told.
//!
//! The library computes and decides; it reads no file, writes none and runs
//! no compiler. Its caller finds out what is on disk, hands that in as plain
//! values, and carries out what comes back.
//!
//! - [`configure`] holds the configuration of a module: its features and
//!   defines in four scopes, kept in [`bucket`]s, with the built-in
//!   configuration of QtCore from [`features`].
//! - [`render`] turns features and defines into the text of a configuration
//!   header.
//! - [`paths`] works on paths as text; [`resolve`] finds the include path
//!   from a forwarding header to its target.
//! - [`scanner`] finds the type names that a header declares.
//! - [`forwarding`] makes the forwarding headers of a module's headers, and
//!   [`subtree`] makes them for public and private headers apart.
//! - [`orchestrate`] plans a build and puts its steps in order; [`builder`]
//!   holds the compiler's settings, and [`qtcore`] sets all of it up for
//!   QtCore on Linux.
//! - [`error`] lists what can go wrong, [`header`] the values that
//!   generation works on, [`text`] and [`util`] what the rest shares.

pub mod bucket;
pub mod builder;
pub mod configure;
pub mod error;
pub mod features;
pub mod forwarding;
pub mod header;
pub mod orchestrate;
pub mod paths;
pub mod qtcore;
pub mod render;
pub mod resolve;
pub mod scanner;
pub mod subtree;
pub mod text;
pub mod util;
