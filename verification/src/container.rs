//! Containers of an environment, and the actions on them.
use crate::error::{Kind, RancherError};
use crate::json::{Json, JsonView};
use crate::rancher::{checked_post_request, Rancher};
use crate::request::{is_error, received, Request, RequestView, Transfer};
use crate::resource::{
    all_well_formed, decode_id, find_from, find_one, found, has_id, list_all, list_from, listed,
    listing, looked_up, views, Resource,
};
use vstd::prelude::*;

verus! {

/// A container of an environment.
#[derive(Debug, Clone, PartialEq, Eq)]
pub struct Container {
    /// Container unique id.
    pub id: String,
    /// Container name.
    pub name: String,
    /// Id of the host on which the container is located.
    pub host_id: String,
    /// Id of the host that was asked for.
    pub requested_host_id: String,
    /// Result of the health check on the container.
    pub health_state: String,
    /// Native container.
    pub native_container: String,
    /// The unique identifier of the associated service.
    pub service_id: String,
    /// Ids of the services associated with the container.
    pub service_ids: Vec<String>,
    /// IP address of the container.
    pub primary_ip_address: String,
    /// State of the allocation.
    pub allocation_state: String,
    /// Container state. It could be `stopped`, `running`, `started`.
    pub state: String,
}

/// The mathematical value of a [`Container`].
pub struct ContainerView {
    pub id: Seq<char>,
    pub name: Seq<char>,
    pub host_id: Seq<char>,
    pub requested_host_id: Seq<char>,
    pub health_state: Seq<char>,
    pub native_container: Seq<char>,
    pub service_id: Seq<char>,
    pub service_ids: Seq<Seq<char>>,
    pub primary_ip_address: Seq<char>,
    pub allocation_state: Seq<char>,
    pub state: Seq<char>,
}

/// The ids of the services of a container: the elements of the array under its
/// member `serviceIds`, each as a text, and none where it has no such array.
pub open spec fn decoded_service_ids(item: JsonView) -> Seq<Seq<char>> {
    match item.member("serviceIds"@) {
        Some(JsonView::Array(items)) => Seq::new(items.len(), |i: int| items[i].plain_text()),
        _ => Seq::empty(),
    }
}

/// The path of an action on a container.
pub open spec fn action_path(
    environment_id: Seq<char>,
    container_id: Seq<char>,
    action: Seq<char>,
) -> Seq<char> {
    "/projects/"@ + environment_id + "/containers/"@ + container_id + "?action="@ + action
}

/// The request that asks for an action on a container.
pub open spec fn action_request(
    rancher: Rancher,
    environment_id: Seq<char>,
    container_id: Seq<char>,
    action: Seq<char>,
) -> RequestView {
    checked_post_request(rancher@, action_path(environment_id, container_id, action))
}

/// Whether the answer to an action accepts it: the transfer brought a JSON
/// text, and that text does not call itself an error.
pub open spec fn accepted(transfer: Transfer) -> bool {
    received(transfer) matches Ok(payload) && !is_error(payload)
}

/// The ids of the services that a JSON object gives a container.
pub fn decode_service_ids(item: &Json) -> (ids: Vec<String>)
    ensures
        views(ids@) == decoded_service_ids(item@),
{
    let mut ids: Vec<String> = Vec::new();
    let items = match item.get("serviceIds") {
        Some(value) => match value.as_array() {
            Some(items) => items,
            None => { return ids; },
        },
        None => { return ids; },
    };
    let ghost sources = item@.member("serviceIds"@)->0->Array_0;
    let mut i: usize = 0;
    while i < items.len()
        invariant
            i <= items.len(),
            ids.len() == i,
            sources.len() == items.len(),
            item@.member("serviceIds"@) == Some(JsonView::Array(sources)),
            forall|k: int| 0 <= k < items.len() ==> #[trigger] sources[k] == items[k]@,
            forall|k: int| 0 <= k < i ==> (#[trigger] ids[k])@ == sources[k].plain_text(),
        decreases items.len() - i,
    {
        ids.push(items[i].plain_text());
        i += 1;
    }
    ids
}

impl View for Container {
    type V = ContainerView;

    open spec fn view(&self) -> ContainerView {
        ContainerView {
            id: self.id@,
            name: self.name@,
            host_id: self.host_id@,
            requested_host_id: self.requested_host_id@,
            health_state: self.health_state@,
            native_container: self.native_container@,
            service_id: self.service_id@,
            service_ids: views(self.service_ids@),
            primary_ip_address: self.primary_ip_address@,
            allocation_state: self.allocation_state@,
            state: self.state@,
        }
    }
}

impl Resource for Container {
    open spec fn id_of(v: ContainerView) -> Seq<char> {
        v.id
    }

    open spec fn name_of(v: ContainerView) -> Seq<char> {
        v.name
    }

    open spec fn decoded(item: JsonView) -> Option<ContainerView> {
        if has_id(item) {
            Some(
                ContainerView {
                    id: item.member_text("id"@)->0,
                    name: item.text_or_empty("name"@),
                    host_id: item.text_or_empty("hostId"@),
                    requested_host_id: item.text_or_empty("requestedHostId"@),
                    health_state: item.text_or_empty("healthState"@),
                    native_container: item.text_or_empty("nativeContainer"@),
                    service_id: item.text_or_empty("serviceId"@),
                    service_ids: decoded_service_ids(item),
                    primary_ip_address: item.text_or_empty("primaryIpAddress"@),
                    allocation_state: item.text_or_empty("allocationState"@),
                    state: item.text_or_empty("state"@),
                },
            )
        } else {
            None
        }
    }

    open spec fn spec_kind() -> Kind {
        Kind::Container
    }

    open spec fn well_formed(&self) -> bool {
        self.id@.len() > 0
    }

    fn kind() -> (k: Kind) {
        Kind::Container
    }

    fn decode(item: &Json) -> (r: Option<Container>) {
        match decode_id(item) {
            Some(id) => Some(
                Container {
                    id,
                    name: item.text_or_empty("name"),
                    host_id: item.text_or_empty("hostId"),
                    requested_host_id: item.text_or_empty("requestedHostId"),
                    health_state: item.text_or_empty("healthState"),
                    native_container: item.text_or_empty("nativeContainer"),
                    service_id: item.text_or_empty("serviceId"),
                    service_ids: decode_service_ids(item),
                    primary_ip_address: item.text_or_empty("primaryIpAddress"),
                    allocation_state: item.text_or_empty("allocationState"),
                    state: item.text_or_empty("state"),
                },
            ),
            None => None,
        }
    }

    fn answers_to(&self, pattern: &String) -> (b: bool) {
        self.id == *pattern || self.name == *pattern
    }

    proof fn lemma_well_formed_id(&self) {
    }

    proof fn lemma_decoded_id(item: JsonView) {
    }
}

/// A field that the response leaves out does not fail the decoding: with an
/// id the value decodes, and each field that is left out has its default.
pub proof fn lemma_missing_fields(item: JsonView)
    requires
        has_id(item),
    ensures
        Container::decoded(item) matches Some(record) && {
            &&& record.id.len() > 0
            &&& item.member("name"@) is None ==> record.name.len() == 0
            &&& item.member("hostId"@) is None ==> record.host_id.len() == 0
            &&& item.member("requestedHostId"@) is None ==> record.requested_host_id.len() == 0
            &&& item.member("healthState"@) is None ==> record.health_state.len() == 0
            &&& item.member("nativeContainer"@) is None ==> record.native_container.len() == 0
            &&& item.member("serviceId"@) is None ==> record.service_id.len() == 0
            &&& item.member("serviceIds"@) is None ==> record.service_ids.len() == 0
            &&& item.member("primaryIpAddress"@) is None ==> record.primary_ip_address.len() == 0
            &&& item.member("allocationState"@) is None ==> record.allocation_state.len() == 0
            &&& item.member("state"@) is None ==> record.state.len() == 0
        },
{
}

impl Container {
    /// The path of the listing of the containers of an environment.
    pub fn path(environment_id: &str) -> (r: String)
        ensures
            r@ == "/projects/"@ + environment_id@ + "/containers?limit=100000"@,
    {
        let mut path = String::from_str("/projects/");
        path.append(environment_id);
        path.append("/containers?limit=100000");
        path
    }

    /// The path of an action on a container.
    pub fn action(environment_id: &str, container_id: &str, action: &str) -> (r: String)
        ensures
            r@ == action_path(environment_id@, container_id@, action@),
    {
        let mut path = String::from_str("/projects/");
        path.append(environment_id);
        path.append("/containers/");
        path.append(container_id);
        path.append("?action=");
        path.append(action);
        path
    }

    /// The containers that a response lists, in the order of the response.
    pub fn get_all(response: &Json) -> (r: Result<Vec<Container>, RancherError>)
        ensures
            match r {
                Ok(records) => listing::<Container>(response@) == Some(views(records@))
                    && all_well_formed(records@),
                Err(e) => e == RancherError::Decode && listing::<Container>(response@) is None,
            },
    {
        list_all::<Container>(response)
    }

    /// The first container of a response whose id or name is the pattern.
    pub fn get_one(response: &Json, pattern: &str) -> (r: Result<Container, RancherError>)
        ensures
            match r {
                Ok(record) => found::<Container>(response@, pattern@) == Ok::<
                    ContainerView,
                    RancherError,
                >(record@) && record.well_formed(),
                Err(e) => found::<Container>(response@, pattern@) == Err::<
                    ContainerView,
                    RancherError,
                >(e),
            },
    {
        find_one::<Container>(response, pattern)
    }

    /// The request that restarts a container.
    pub fn restart(rancher: &Rancher, environment_id: &str, container_id: &str) -> (request:
        Request)
        ensures
            request@ == action_request(*rancher, environment_id@, container_id@, "restart"@),
    {
        let path = Self::action(environment_id, container_id, "restart");
        rancher.post_api_without_data(path.as_str())
    }

    /// The request that starts a container.
    pub fn start(rancher: &Rancher, environment_id: &str, container_id: &str) -> (request: Request)
        ensures
            request@ == action_request(*rancher, environment_id@, container_id@, "start"@),
    {
        let path = Self::action(environment_id, container_id, "start");
        rancher.post_api_without_data(path.as_str())
    }

    /// The request that stops a container.
    pub fn stop(rancher: &Rancher, environment_id: &str, container_id: &str) -> (request: Request)
        ensures
            request@ == action_request(*rancher, environment_id@, container_id@, "stop"@),
    {
        let path = Self::action(environment_id, container_id, "stop");
        rancher.post_api_without_data(path.as_str())
    }
}

/// The calls on containers that a client makes. Each takes the end of the
/// transfer of its request.
pub trait ContainerTrait {
    /// Get all containers from an environment.
    fn get_containers(&self, transfer: &Transfer) -> (r: Result<Vec<Container>, RancherError>)
        ensures
            match r {
                Ok(records) => listed::<Container>(*transfer) == Ok::<
                    Seq<ContainerView>,
                    RancherError,
                >(views(records@)) && all_well_formed(records@),
                Err(e) => listed::<Container>(*transfer) == Err::<
                    Seq<ContainerView>,
                    RancherError,
                >(e),
            },
    ;

    /// Get one container from a pattern that should match with the container
    /// id or the container name.
    fn get_container(&self, transfer: &Transfer, pattern: &str) -> (r: Result<
        Container,
        RancherError,
    >)
        ensures
            match r {
                Ok(record) => looked_up::<Container>(*transfer, pattern@) == Ok::<
                    ContainerView,
                    RancherError,
                >(record@) && record.well_formed(),
                Err(e) => looked_up::<Container>(*transfer, pattern@) == Err::<
                    ContainerView,
                    RancherError,
                >(e),
            },
    ;

    /// Restart a container based on an environment id and a container id: whether
    /// the request for it succeeded.
    fn restart_container(
        &self,
        environment_id: &str,
        container_id: &str,
        transfer: &Transfer,
    ) -> (b: bool)
        ensures
            b == accepted(*transfer),
    ;

    /// Start a container based on an environment id and a container id: whether
    /// the request for it succeeded.
    fn start_container(
        &self,
        environment_id: &str,
        container_id: &str,
        transfer: &Transfer,
    ) -> (b: bool)
        ensures
            b == accepted(*transfer),
    ;

    /// Stop a container based on an environment id and a container id: whether
    /// the request for it succeeded.
    fn stop_container(
        &self,
        environment_id: &str,
        container_id: &str,
        transfer: &Transfer,
    ) -> (b: bool)
        ensures
            b == accepted(*transfer),
    ;
}

impl ContainerTrait for Rancher {
    fn get_containers(&self, transfer: &Transfer) -> (r: Result<Vec<Container>, RancherError>) {
        list_from::<Container>(transfer)
    }

    fn get_container(&self, transfer: &Transfer, pattern: &str) -> (r: Result<
        Container,
        RancherError,
    >) {
        find_from::<Container>(transfer, pattern)
    }

    fn restart_container(
        &self,
        environment_id: &str,
        container_id: &str,
        transfer: &Transfer,
    ) -> (b: bool) {
        Container::restart(self, environment_id, container_id).succeeded(transfer)
    }

    fn start_container(
        &self,
        environment_id: &str,
        container_id: &str,
        transfer: &Transfer,
    ) -> (b: bool) {
        Container::start(self, environment_id, container_id).succeeded(transfer)
    }

    fn stop_container(
        &self,
        environment_id: &str,
        container_id: &str,
        transfer: &Transfer,
    ) -> (b: bool) {
        Container::stop(self, environment_id, container_id).succeeded(transfer)
    }
}

} // verus!
