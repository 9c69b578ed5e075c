//! Bootstrap logic for a desktop application shell.
//!
//! The library models the decisions a bootstrapper makes while bringing an
//! application up: which companion process to launch, which capability
//! plugins the GUI runtime receives, what filesystem scope is granted, and
//! how the startup phases follow one another.  The embedding program performs
//! the process creation and runs the GUI event loop; every decision it acts
//! on comes from here.

pub mod config;
pub mod machine;
pub mod scope;
