//! Hosts of an environment, and the labels they carry.
use crate::error::{Kind, RancherError};
use crate::fields::{
    as_map, distinct_names, field_views, get_field, has_name, lemma_replaced_absent,
    lemma_replaced_distinct, lookup, replaced, set_field,
};
use crate::json::{Json, JsonView};
use crate::rancher::Rancher;
use crate::request::Transfer;
use crate::resource::{
    all_well_formed, decode_id, find_from, find_one, found, has_id, list_all, list_from, listed,
    listing, looked_up, views, Resource,
};
use vstd::prelude::*;

verus! {

/// A host of an environment.
///
/// The labels are kept as pairs of a name and a value, in the order in which
/// the names first came. In a well-formed host no name occurs twice, so the
/// pairs stand for a mapping.
#[derive(Debug, Clone, PartialEq, Eq)]
pub struct Host {
    /// Unique id.
    pub id: String,
    /// Hostname.
    pub hostname: String,
    /// IP address of the host.
    pub agent_ip_address: String,
    /// State of the agent.
    pub agent_state: String,
    /// Labels associated with the host.
    pub labels: Vec<(String, String)>,
}

/// The mathematical value of a [`Host`].
pub struct HostView {
    pub id: Seq<char>,
    pub hostname: Seq<char>,
    pub agent_ip_address: Seq<char>,
    pub agent_state: Seq<char>,
    pub labels: Seq<(Seq<char>, Seq<char>)>,
}

impl HostView {
    /// The mapping from names to values that the labels stand for.
    pub open spec fn label_map(self) -> Map<Seq<char>, Seq<char>> {
        as_map(self.labels)
    }
}

/// The labels that the fields of a JSON object give, entered one after the
/// other: a later field replaces the value of an earlier one of the same name.
/// A value that is no string gives the empty text.
pub open spec fn labels_of(fields: Seq<(Seq<char>, JsonView)>) -> Seq<(Seq<char>, Seq<char>)>
    decreases fields.len(),
{
    if fields.len() == 0 {
        Seq::empty()
    } else {
        replaced(labels_of(fields.drop_last()), fields.last().0, fields.last().1.plain_text())
    }
}

/// The fields of a JSON object as labels, one for one: each name with the
/// text of its value.
pub open spec fn labels_as_given(fields: Seq<(Seq<char>, JsonView)>) -> Seq<
    (Seq<char>, Seq<char>),
> {
    Seq::new(fields.len(), |i: int| (fields[i].0, fields[i].1.plain_text()))
}

/// The labels of a host: those of the object under its member `labels`, and
/// none where it has no such object.
pub open spec fn decoded_labels(item: JsonView) -> Seq<(Seq<char>, Seq<char>)> {
    match item.member("labels"@) {
        Some(JsonView::Object(fields)) => labels_of(fields),
        _ => Seq::empty(),
    }
}

/// Among the labels that fields give, no name occurs twice.
pub proof fn lemma_labels_distinct(fields: Seq<(Seq<char>, JsonView)>)
    ensures
        distinct_names(labels_of(fields)),
    decreases fields.len(),
{
    if fields.len() > 0 {
        lemma_labels_distinct(fields.drop_last());
        lemma_replaced_distinct(
            labels_of(fields.drop_last()),
            fields.last().0,
            fields.last().1.plain_text(),
        );
    }
}

/// The fields of an object in which no name occurs twice give exactly
/// themselves as labels: as many, in the same order, each name with the text
/// of its value.
pub proof fn lemma_labels_as_given(fields: Seq<(Seq<char>, JsonView)>)
    requires
        distinct_names(fields),
    ensures
        labels_of(fields) == labels_as_given(fields),
    decreases fields.len(),
{
    if fields.len() > 0 {
        let front = fields.drop_last();
        let name = fields.last().0;
        lemma_labels_as_given(front);
        assert(!has_name(labels_as_given(front), name)) by {
            if has_name(labels_as_given(front), name) {
                let i = choose|i: int|
                    0 <= i < front.len() && (#[trigger] labels_as_given(front)[i]).0 == name;
                assert(fields[i].0 == fields[fields.len() - 1].0);
            }
        }
        lemma_replaced_absent(labels_as_given(front), name, fields.last().1.plain_text());
    }
}

/// The labels that a JSON object gives a host.
pub fn decode_labels(item: &Json) -> (labels: Vec<(String, String)>)
    ensures
        field_views(labels@) == decoded_labels(item@),
{
    let mut labels: Vec<(String, String)> = Vec::new();
    let fields = match item.get("labels") {
        Some(value) => match value.as_object() {
            Some(fields) => fields,
            None => { return labels; },
        },
        None => { return labels; },
    };
    let ghost sources = field_views(fields@);
    let mut i: usize = 0;
    while i < fields.len()
        invariant
            i <= fields.len(),
            sources == field_views(fields@),
            item@.member("labels"@) == Some(JsonView::Object(sources)),
            field_views(labels@) == labels_of(sources.take(i as int)),
        decreases fields.len() - i,
    {
        assert(sources.take(i as int + 1).drop_last() =~= sources.take(i as int));
        set_field(&mut labels, fields[i].0.clone(), fields[i].1.plain_text());
        i += 1;
    }
    assert(sources.take(i as int) =~= sources);
    labels
}

impl View for Host {
    type V = HostView;

    open spec fn view(&self) -> HostView {
        HostView {
            id: self.id@,
            hostname: self.hostname@,
            agent_ip_address: self.agent_ip_address@,
            agent_state: self.agent_state@,
            labels: field_views(self.labels@),
        }
    }
}

impl Resource for Host {
    open spec fn id_of(v: HostView) -> Seq<char> {
        v.id
    }

    open spec fn name_of(v: HostView) -> Seq<char> {
        v.hostname
    }

    open spec fn decoded(item: JsonView) -> Option<HostView> {
        if has_id(item) {
            Some(
                HostView {
                    id: item.member_text("id"@)->0,
                    hostname: item.text_or_empty("hostname"@),
                    agent_ip_address: item.text_or_empty("agentIpAddress"@),
                    agent_state: item.text_or_empty("agentState"@),
                    labels: decoded_labels(item),
                },
            )
        } else {
            None
        }
    }

    open spec fn spec_kind() -> Kind {
        Kind::Host
    }

    open spec fn well_formed(&self) -> bool {
        self.id@.len() > 0 && distinct_names(field_views(self.labels@))
    }

    fn kind() -> (k: Kind) {
        Kind::Host
    }

    fn decode(item: &Json) -> (r: Option<Host>) {
        proof {
            if let Some(JsonView::Object(fields)) = item@.member("labels"@) {
                lemma_labels_distinct(fields);
            }
        }
        match decode_id(item) {
            Some(id) => Some(
                Host {
                    id,
                    hostname: item.text_or_empty("hostname"),
                    agent_ip_address: item.text_or_empty("agentIpAddress"),
                    agent_state: item.text_or_empty("agentState"),
                    labels: decode_labels(item),
                },
            ),
            None => None,
        }
    }

    fn answers_to(&self, pattern: &String) -> (b: bool) {
        self.id == *pattern || self.hostname == *pattern
    }

    proof fn lemma_well_formed_id(&self) {
    }

    proof fn lemma_decoded_id(item: JsonView) {
    }
}

/// A field that the response leaves out does not fail the decoding: with an
/// id the value decodes, and each field that is left out has its default.
pub proof fn lemma_missing_fields(item: JsonView)
    requires
        has_id(item),
    ensures
        Host::decoded(item) matches Some(record) && {
            &&& record.id.len() > 0
            &&& item.member("hostname"@) is None ==> record.hostname.len() == 0
            &&& item.member("agentIpAddress"@) is None ==> record.agent_ip_address.len() == 0
            &&& item.member("agentState"@) is None ==> record.agent_state.len() == 0
            &&& item.member("labels"@) is None ==> record.labels.len() == 0
        },
{
}

impl Host {
    /// The path of the listing of the hosts of an environment.
    pub fn path(environment_id: &str) -> (r: String)
        ensures
            r@ == "/projects/"@ + environment_id@ + "/hosts"@,
    {
        let mut path = String::from_str("/projects/");
        path.append(environment_id);
        path.append("/hosts");
        path
    }

    /// The hosts that a response lists, in the order of the response.
    pub fn get_all(response: &Json) -> (r: Result<Vec<Host>, RancherError>)
        ensures
            match r {
                Ok(records) => listing::<Host>(response@) == Some(views(records@))
                    && all_well_formed(records@),
                Err(e) => e == RancherError::Decode && listing::<Host>(response@) is None,
            },
    {
        list_all::<Host>(response)
    }

    /// The first host of a response whose id or hostname is the pattern.
    pub fn get_one(response: &Json, pattern: &str) -> (r: Result<Host, RancherError>)
        ensures
            match r {
                Ok(record) => found::<Host>(response@, pattern@) == Ok::<HostView, RancherError>(
                    record@,
                ) && record.well_formed(),
                Err(e) => found::<Host>(response@, pattern@) == Err::<HostView, RancherError>(e),
            },
    {
        find_one::<Host>(response, pattern)
    }

    /// The value of the label `name`, where the host has one.
    pub fn label(&self, name: &str) -> (r: Option<&String>)
        ensures
            match r {
                Some(value) => lookup(self@.labels, name@) == Some(value@),
                None => lookup(self@.labels, name@) is None,
            },
    {
        get_field(&self.labels, name)
    }
}

/// The calls on hosts that a client makes. Each takes the end of the
/// transfer of its request.
pub trait HostTrait {
    /// Get all hosts from an environment.
    fn get_hosts(&self, transfer: &Transfer) -> (r: Result<Vec<Host>, RancherError>)
        ensures
            match r {
                Ok(records) => listed::<Host>(*transfer) == Ok::<
                    Seq<HostView>,
                    RancherError,
                >(views(records@)) && all_well_formed(records@),
                Err(e) => listed::<Host>(*transfer) == Err::<
                    Seq<HostView>,
                    RancherError,
                >(e),
            },
    ;

    /// Get a host from a pattern that should match with the host id or the
    /// hostname.
    fn get_host(&self, transfer: &Transfer, pattern: &str) -> (r: Result<
        Host,
        RancherError,
    >)
        ensures
            match r {
                Ok(record) => looked_up::<Host>(*transfer, pattern@) == Ok::<
                    HostView,
                    RancherError,
                >(record@) && record.well_formed(),
                Err(e) => looked_up::<Host>(*transfer, pattern@) == Err::<
                    HostView,
                    RancherError,
                >(e),
            },
    ;
}

impl HostTrait for Rancher {
    fn get_hosts(&self, transfer: &Transfer) -> (r: Result<Vec<Host>, RancherError>) {
        list_from::<Host>(transfer)
    }

    fn get_host(&self, transfer: &Transfer, pattern: &str) -> (r: Result<
        Host,
        RancherError,
    >) {
        find_from::<Host>(transfer, pattern)
    }
}

} // verus!
