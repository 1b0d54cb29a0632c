//! Service descriptors and the supervision state machines built on them.

use crate::text::{clone_strings, string_views};
use vstd::prelude::*;

pub mod channel;
pub mod drain;
pub mod orchestrator;
pub mod outcome;
pub mod service;
pub mod traces;

verus! {

/// What a [`Service`] stands for in contracts: the program to start and its
/// arguments, in order.
pub struct ServiceView {
    pub command: Seq<char>,
    pub args: Seq<Seq<char>>,
}

/// Descriptor of one supervised service: the command to start and the
/// arguments handed to it, exactly as configured. A descriptor never changes
/// once it is built.
#[derive(Debug)]
pub struct Service {
    command: String,
    args: Vec<String>,
}

impl View for Service {
    type V = ServiceView;

    closed spec fn view(&self) -> ServiceView {
        ServiceView { command: self.command@, args: string_views(self.args@) }
    }
}

impl Service {
    /// Builds a descriptor from a command and its arguments.
    pub fn new(command: String, args: Vec<String>) -> (s: Service)
        ensures
            s@.command == command@,
            s@.args == string_views(args@),
    {
        Service { command, args }
    }

    /// The program to start.
    pub fn command(&self) -> (c: &str)
        ensures
            c@ == self@.command,
    {
        self.command.as_str()
    }

    /// The arguments handed to the program, in order.
    pub fn args(&self) -> (a: &Vec<String>)
        ensures
            string_views(a@) == self@.args,
    {
        &self.args
    }
}

impl Clone for Service {
    fn clone(&self) -> (s: Service)
        ensures
            s@ == self@,
    {
        Service { command: self.command.clone(), args: clone_strings(&self.args) }
    }
}

} // verus!
