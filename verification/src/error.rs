//! The ways in which an operation of the client fails.
use crate::json::Json;
use vstd::prelude::*;

verus! {

/// The kinds of record that a lookup can miss.
#[derive(Debug, Clone, Copy, PartialEq, Eq, Structural)]
pub enum Kind {
    Environment,
    Host,
    Stack,
    Service,
    Container,
    Project,
}

/// A failed operation.
#[derive(Debug, PartialEq, Eq)]
pub enum RancherError {
    /// No file, or more than one, matches the name of the configuration.
    ConfigNotFound,
    /// The configuration is no JSON text, or lacks a required field.
    ConfigMalformed,
    /// The transfer did not complete.
    Transport,
    /// The response is no JSON text, or has not the shape of a listing.
    Decode,
    /// The server answered with an error; the answer is kept.
    Api(Json),
    /// No record has the pattern as its id or as its name.
    NotFound(Kind),
    /// A lookup that needs an environment was given none.
    NoEnvironment,
}

impl Kind {
    /// The sentence that reports a missing record of this kind.
    pub open spec fn spec_message(self) -> Seq<char> {
        match self {
            Kind::Environment => "No environment found."@,
            Kind::Host => "No host found."@,
            Kind::Stack => "No stack found."@,
            Kind::Service => "No service found."@,
            Kind::Container => "No container found."@,
            Kind::Project => "No project found."@,
        }
    }

    /// The sentence that reports a missing record of this kind.
    pub fn message(self) -> (r: &'static str)
        ensures
            r@ == self.spec_message(),
    {
        match self {
            Kind::Environment => "No environment found.",
            Kind::Host => "No host found.",
            Kind::Stack => "No stack found.",
            Kind::Service => "No service found.",
            Kind::Container => "No container found.",
            Kind::Project => "No project found.",
        }
    }
}

impl RancherError {
    /// The sentence shown to the user for this failure.
    pub open spec fn spec_message(self) -> Seq<char> {
        match self {
            RancherError::ConfigNotFound => "Can't retrieve the config file."@,
            RancherError::ConfigMalformed => "The config file is malformed."@,
            RancherError::Transport => "The request failed."@,
            RancherError::Decode => "The response is malformed."@,
            RancherError::Api(_) => "Error: Something goes wrong..."@,
            RancherError::NotFound(kind) => kind.spec_message(),
            RancherError::NoEnvironment => "No environment."@,
        }
    }

    /// The sentence shown to the user for this failure.
    pub fn message(&self) -> (r: &'static str)
        ensures
            r@ == self.spec_message(),
    {
        match self {
            RancherError::ConfigNotFound => "Can't retrieve the config file.",
            RancherError::ConfigMalformed => "The config file is malformed.",
            RancherError::Transport => "The request failed.",
            RancherError::Decode => "The response is malformed.",
            RancherError::Api(_) => "Error: Something goes wrong...",
            RancherError::NotFound(kind) => kind.message(),
            RancherError::NoEnvironment => "No environment.",
        }
    }
}

} // verus!
