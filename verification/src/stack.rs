//! Stacks of an environment.
use crate::error::{Kind, RancherError};
use crate::json::{Json, JsonView};
use crate::rancher::Rancher;
use crate::request::Transfer;
use crate::resource::{
    all_well_formed, decode_id, find_from, find_one, found, has_id, list_all, list_from, listed,
    listing, looked_up, views, Resource,
};
use vstd::prelude::*;

verus! {

/// A stack of an environment.
#[derive(Debug, Clone, PartialEq, Eq)]
pub struct Stack {
    /// Unique id.
    pub id: String,
    /// Name.
    pub name: String,
}

/// The mathematical value of a [`Stack`].
pub struct StackView {
    pub id: Seq<char>,
    pub name: Seq<char>,
}

impl View for Stack {
    type V = StackView;

    open spec fn view(&self) -> StackView {
        StackView { id: self.id@, name: self.name@ }
    }
}

impl Resource for Stack {
    open spec fn id_of(v: StackView) -> Seq<char> {
        v.id
    }

    open spec fn name_of(v: StackView) -> Seq<char> {
        v.name
    }

    open spec fn decoded(item: JsonView) -> Option<StackView> {
        if has_id(item) {
            Some(
                StackView {
                    id: item.member_text("id"@)->0,
                    name: item.text_or_empty("name"@),
                },
            )
        } else {
            None
        }
    }

    open spec fn spec_kind() -> Kind {
        Kind::Stack
    }

    open spec fn well_formed(&self) -> bool {
        self.id@.len() > 0
    }

    fn kind() -> (k: Kind) {
        Kind::Stack
    }

    fn decode(item: &Json) -> (r: Option<Stack>) {
        match decode_id(item) {
            Some(id) => Some(Stack { id, name: item.text_or_empty("name") }),
            None => None,
        }
    }

    fn answers_to(&self, pattern: &String) -> (b: bool) {
        self.id == *pattern || self.name == *pattern
    }

    proof fn lemma_well_formed_id(&self) {
    }

    proof fn lemma_decoded_id(item: JsonView) {
    }
}

/// A field that the response leaves out does not fail the decoding: with an
/// id the value decodes, and each field that is left out has its default.
pub proof fn lemma_missing_fields(item: JsonView)
    requires
        has_id(item),
    ensures
        Stack::decoded(item) matches Some(record) && {
            &&& record.id.len() > 0
            &&& item.member("name"@) is None ==> record.name.len() == 0
        },
{
}

impl Stack {
    /// The path of the listing of the stacks of an environment.
    pub fn path(environment_id: &str) -> (r: String)
        ensures
            r@ == "/projects/"@ + environment_id@ + "/stacks"@,
    {
        let mut path = String::from_str("/projects/");
        path.append(environment_id);
        path.append("/stacks");
        path
    }

    /// The stacks that a response lists, in the order of the response.
    pub fn get_all(response: &Json) -> (r: Result<Vec<Stack>, RancherError>)
        ensures
            match r {
                Ok(records) => listing::<Stack>(response@) == Some(views(records@))
                    && all_well_formed(records@),
                Err(e) => e == RancherError::Decode && listing::<Stack>(response@) is None,
            },
    {
        list_all::<Stack>(response)
    }

    /// The first stack of a response whose id or name is the pattern.
    pub fn get_one(response: &Json, pattern: &str) -> (r: Result<Stack, RancherError>)
        ensures
            match r {
                Ok(record) => found::<Stack>(response@, pattern@) == Ok::<
                    StackView,
                    RancherError,
                >(record@) && record.well_formed(),
                Err(e) => found::<Stack>(response@, pattern@) == Err::<
                    StackView,
                    RancherError,
                >(e),
            },
    {
        find_one::<Stack>(response, pattern)
    }
}

/// The calls on stacks that a client makes. Each takes the end of the
/// transfer of its request.
pub trait StackTrait {
    /// Get all stacks from an environment.
    fn get_stacks(&self, transfer: &Transfer) -> (r: Result<Vec<Stack>, RancherError>)
        ensures
            match r {
                Ok(records) => listed::<Stack>(*transfer) == Ok::<
                    Seq<StackView>,
                    RancherError,
                >(views(records@)) && all_well_formed(records@),
                Err(e) => listed::<Stack>(*transfer) == Err::<
                    Seq<StackView>,
                    RancherError,
                >(e),
            },
    ;

    /// Get one stack from a pattern that should match with the stack id or
    /// the stack name.
    fn get_stack(&self, transfer: &Transfer, pattern: &str) -> (r: Result<
        Stack,
        RancherError,
    >)
        ensures
            match r {
                Ok(record) => looked_up::<Stack>(*transfer, pattern@) == Ok::<
                    StackView,
                    RancherError,
                >(record@) && record.well_formed(),
                Err(e) => looked_up::<Stack>(*transfer, pattern@) == Err::<
                    StackView,
                    RancherError,
                >(e),
            },
    ;
}

impl StackTrait for Rancher {
    fn get_stacks(&self, transfer: &Transfer) -> (r: Result<Vec<Stack>, RancherError>) {
        list_from::<Stack>(transfer)
    }

    fn get_stack(&self, transfer: &Transfer, pattern: &str) -> (r: Result<
        Stack,
        RancherError,
    >) {
        find_from::<Stack>(transfer, pattern)
    }
}

} // verus!
