//! Services of an environment.
use crate::error::{Kind, RancherError};
use crate::json::{Json, JsonView};
use crate::rancher::Rancher;
use crate::request::Transfer;
use crate::resource::{
    all_well_formed, decode_id, find_from, find_one, found, has_id, list_all, list_from, listed,
    listing, looked_up, views, Resource,
};
use vstd::prelude::*;

verus! {

/// A service of an environment.
#[derive(Debug, Clone, PartialEq, Eq)]
pub struct Service {
    /// Unique id.
    pub id: String,
    /// Name.
    pub name: String,
}

/// The mathematical value of a [`Service`].
pub struct ServiceView {
    pub id: Seq<char>,
    pub name: Seq<char>,
}

impl View for Service {
    type V = ServiceView;

    open spec fn view(&self) -> ServiceView {
        ServiceView { id: self.id@, name: self.name@ }
    }
}

impl Resource for Service {
    open spec fn id_of(v: ServiceView) -> Seq<char> {
        v.id
    }

    open spec fn name_of(v: ServiceView) -> Seq<char> {
        v.name
    }

    open spec fn decoded(item: JsonView) -> Option<ServiceView> {
        if has_id(item) {
            Some(
                ServiceView {
                    id: item.member_text("id"@)->0,
                    name: item.text_or_empty("name"@),
                },
            )
        } else {
            None
        }
    }

    open spec fn spec_kind() -> Kind {
        Kind::Service
    }

    open spec fn well_formed(&self) -> bool {
        self.id@.len() > 0
    }

    fn kind() -> (k: Kind) {
        Kind::Service
    }

    fn decode(item: &Json) -> (r: Option<Service>) {
        match decode_id(item) {
            Some(id) => Some(Service { id, name: item.text_or_empty("name") }),
            None => None,
        }
    }

    fn answers_to(&self, pattern: &String) -> (b: bool) {
        self.id == *pattern || self.name == *pattern
    }

    proof fn lemma_well_formed_id(&self) {
    }

    proof fn lemma_decoded_id(item: JsonView) {
    }
}

/// A field that the response leaves out does not fail the decoding: with an
/// id the value decodes, and each field that is left out has its default.
pub proof fn lemma_missing_fields(item: JsonView)
    requires
        has_id(item),
    ensures
        Service::decoded(item) matches Some(record) && {
            &&& record.id.len() > 0
            &&& item.member("name"@) is None ==> record.name.len() == 0
        },
{
}

impl Service {
    /// The path of the listing of the services of an environment.
    pub fn path(environment_id: &str) -> (r: String)
        ensures
            r@ == "/projects/"@ + environment_id@ + "/services"@,
    {
        let mut path = String::from_str("/projects/");
        path.append(environment_id);
        path.append("/services");
        path
    }

    /// The services that a response lists, in the order of the response.
    pub fn get_all(response: &Json) -> (r: Result<Vec<Service>, RancherError>)
        ensures
            match r {
                Ok(records) => listing::<Service>(response@) == Some(views(records@))
                    && all_well_formed(records@),
                Err(e) => e == RancherError::Decode && listing::<Service>(response@) is None,
            },
    {
        list_all::<Service>(response)
    }

    /// The first service of a response whose id or name is the pattern.
    pub fn get_one(response: &Json, pattern: &str) -> (r: Result<Service, RancherError>)
        ensures
            match r {
                Ok(record) => found::<Service>(response@, pattern@) == Ok::<
                    ServiceView,
                    RancherError,
                >(record@) && record.well_formed(),
                Err(e) => found::<Service>(response@, pattern@) == Err::<
                    ServiceView,
                    RancherError,
                >(e),
            },
    {
        find_one::<Service>(response, pattern)
    }
}

/// The calls on services that a client makes. Each takes the end of the
/// transfer of its request.
pub trait ServiceTrait {
    /// Get all services from an environment.
    fn get_services(&self, transfer: &Transfer) -> (r: Result<Vec<Service>, RancherError>)
        ensures
            match r {
                Ok(records) => listed::<Service>(*transfer) == Ok::<
                    Seq<ServiceView>,
                    RancherError,
                >(views(records@)) && all_well_formed(records@),
                Err(e) => listed::<Service>(*transfer) == Err::<
                    Seq<ServiceView>,
                    RancherError,
                >(e),
            },
    ;

    /// Get one service from a pattern that should match with the service id
    /// or the service name.
    fn get_service(&self, transfer: &Transfer, pattern: &str) -> (r: Result<
        Service,
        RancherError,
    >)
        ensures
            match r {
                Ok(record) => looked_up::<Service>(*transfer, pattern@) == Ok::<
                    ServiceView,
                    RancherError,
                >(record@) && record.well_formed(),
                Err(e) => looked_up::<Service>(*transfer, pattern@) == Err::<
                    ServiceView,
                    RancherError,
                >(e),
            },
    ;
}

impl ServiceTrait for Rancher {
    fn get_services(&self, transfer: &Transfer) -> (r: Result<Vec<Service>, RancherError>) {
        list_from::<Service>(transfer)
    }

    fn get_service(&self, transfer: &Transfer, pattern: &str) -> (r: Result<
        Service,
        RancherError,
    >) {
        find_from::<Service>(transfer, pattern)
    }
}

} // verus!
