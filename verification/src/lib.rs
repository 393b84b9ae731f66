//! A client-side model of the Rancher REST API: it builds the requests, reads
//! the JSON replies and decodes the records they carry.

pub mod cmd;
pub mod container;
pub mod environment;
pub mod error;
pub mod fields;
pub mod host;
pub mod json;
pub mod parse;
pub mod rancher;
pub mod request;
pub mod resource;
pub mod service;
pub mod stack;
pub mod util;

pub use container::{Container, ContainerTrait};
pub use environment::{Environment, EnvironmentTrait};
pub use error::{Kind, RancherError};
pub use host::{Host, HostTrait};
pub use json::Json;
pub use rancher::Rancher;
pub use request::{Method, Request, Transfer};
pub use resource::Resource;
pub use service::{Service, ServiceTrait};
pub use stack::{Stack, StackTrait};
