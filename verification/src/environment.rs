//! Environments, the projects under which every other record is kept.
use crate::error::{Kind, RancherError};
use crate::json::{Json, JsonView};
use crate::rancher::Rancher;
use crate::request::Transfer;
use crate::resource::{
    all_well_formed, decode_id, find_from, find_one, found, has_id, list_all, list_from, listed,
    listing, looked_up, views, Resource,
};
use vstd::prelude::*;

verus! {

/// An environment of a Rancher server.
#[derive(Debug, Clone, PartialEq, Eq, PartialOrd)]
pub struct Environment {
    /// Unique id.
    pub id: String,
    /// Name.
    pub name: String,
}

/// The mathematical value of an [`Environment`].
pub struct EnvironmentView {
    pub id: Seq<char>,
    pub name: Seq<char>,
}

impl View for Environment {
    type V = EnvironmentView;

    open spec fn view(&self) -> EnvironmentView {
        EnvironmentView { id: self.id@, name: self.name@ }
    }
}

impl Resource for Environment {
    open spec fn id_of(v: EnvironmentView) -> Seq<char> {
        v.id
    }

    open spec fn name_of(v: EnvironmentView) -> Seq<char> {
        v.name
    }

    open spec fn decoded(item: JsonView) -> Option<EnvironmentView> {
        if has_id(item) {
            Some(
                EnvironmentView {
                    id: item.member_text("id"@)->0,
                    name: item.text_or_empty("name"@),
                },
            )
        } else {
            None
        }
    }

    open spec fn spec_kind() -> Kind {
        Kind::Environment
    }

    open spec fn well_formed(&self) -> bool {
        self.id@.len() > 0
    }

    fn kind() -> (k: Kind) {
        Kind::Environment
    }

    fn decode(item: &Json) -> (r: Option<Environment>) {
        match decode_id(item) {
            Some(id) => Some(Environment { id, name: item.text_or_empty("name") }),
            None => None,
        }
    }

    fn answers_to(&self, pattern: &String) -> (b: bool) {
        self.id == *pattern || self.name == *pattern
    }

    proof fn lemma_well_formed_id(&self) {
    }

    proof fn lemma_decoded_id(item: JsonView) {
    }
}

/// A field that the response leaves out does not fail the decoding: with an
/// id the value decodes, and each field that is left out has its default.
pub proof fn lemma_missing_fields(item: JsonView)
    requires
        has_id(item),
    ensures
        Environment::decoded(item) matches Some(record) && {
            &&& record.id.len() > 0
            &&& item.member("name"@) is None ==> record.name.len() == 0
        },
{
}

impl Environment {
    /// The path of the listing of all environments.
    pub fn path() -> (r: String)
        ensures
            r@ == "/projects"@,
    {
        String::from_str("/projects")
    }

    /// The environments that a response lists, in the order of the response.
    pub fn get_all(response: &Json) -> (r: Result<Vec<Environment>, RancherError>)
        ensures
            match r {
                Ok(records) => listing::<Environment>(response@) == Some(views(records@))
                    && all_well_formed(records@),
                Err(e) => e == RancherError::Decode && listing::<Environment>(response@) is None,
            },
    {
        list_all::<Environment>(response)
    }

    /// The first environment of a response whose id or name is the pattern.
    pub fn get_one(response: &Json, pattern: &str) -> (r: Result<Environment, RancherError>)
        ensures
            match r {
                Ok(record) => found::<Environment>(response@, pattern@) == Ok::<
                    EnvironmentView,
                    RancherError,
                >(record@) && record.well_formed(),
                Err(e) => found::<Environment>(response@, pattern@) == Err::<
                    EnvironmentView,
                    RancherError,
                >(e),
            },
    {
        find_one::<Environment>(response, pattern)
    }
}

/// The calls on environments that a client makes. Each takes the end of the
/// transfer of its request.
pub trait EnvironmentTrait {
    /// Get all environments.
    fn get_environments(&self, transfer: &Transfer) -> (r: Result<Vec<Environment>, RancherError>)
        ensures
            match r {
                Ok(records) => listed::<Environment>(*transfer) == Ok::<
                    Seq<EnvironmentView>,
                    RancherError,
                >(views(records@)) && all_well_formed(records@),
                Err(e) => listed::<Environment>(*transfer) == Err::<
                    Seq<EnvironmentView>,
                    RancherError,
                >(e),
            },
    ;

    /// Get one environment from a pattern that should match with the
    /// environment id or the environment name.
    fn get_environment(&self, transfer: &Transfer, pattern: &str) -> (r: Result<
        Environment,
        RancherError,
    >)
        ensures
            match r {
                Ok(record) => looked_up::<Environment>(*transfer, pattern@) == Ok::<
                    EnvironmentView,
                    RancherError,
                >(record@) && record.well_formed(),
                Err(e) => looked_up::<Environment>(*transfer, pattern@) == Err::<
                    EnvironmentView,
                    RancherError,
                >(e),
            },
    ;
}

impl EnvironmentTrait for Rancher {
    fn get_environments(&self, transfer: &Transfer) -> (r: Result<Vec<Environment>, RancherError>) {
        list_from::<Environment>(transfer)
    }

    fn get_environment(&self, transfer: &Transfer, pattern: &str) -> (r: Result<
        Environment,
        RancherError,
    >) {
        find_from::<Environment>(transfer, pattern)
    }
}

} // verus!
