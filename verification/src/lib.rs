//! Building blocks of a small container toolchain: a process supervisor that
//! runs a fixed set of services and tears all of them down as soon as one of
//! them ends, and the naming rules used when container images are built for
//! several platforms.
//!
//! Nothing in this crate performs I/O. The supervisor is written as a set of
//! state machines that are told what happened and answer with what to do next;
//! the caller owns the child processes, pipes and signal handlers.

pub mod build_docker_image;
pub mod config;
pub mod docker_rust;
pub mod platform;
pub mod process;
pub mod text;
