//! What the five kinds of record have in common: a listing is decoded element
//! by element, and a record is found by its id or by its name.
use crate::error::{Kind, RancherError};
use crate::json::{Json, JsonView};
use crate::request::{receive, received, Transfer};
use vstd::prelude::*;

verus! {

/// A record of the API, decoded from one JSON object of a listing.
pub trait Resource: View + Sized {
    /// The id of a record.
    spec fn id_of(v: Self::V) -> Seq<char>;

    /// The name by which a record is looked up.
    spec fn name_of(v: Self::V) -> Seq<char>;

    /// The record that a JSON value decodes to, `None` where the value cannot
    /// be decoded.
    spec fn decoded(item: JsonView) -> Option<Self::V>;

    /// The kind of the records, as a failed lookup reports it.
    spec fn spec_kind() -> Kind;

    /// What holds of every record that was decoded: its id is not empty, and
    /// whatever else the kind of record asks for.
    spec fn well_formed(&self) -> bool;

    /// The kind of the records, as a failed lookup reports it.
    fn kind() -> (k: Kind)
        ensures
            k == Self::spec_kind(),
    ;

    /// Decodes one element of a listing.
    fn decode(item: &Json) -> (r: Option<Self>)
        ensures
            match r {
                Some(record) => Self::decoded(item@) == Some(record@) && record.well_formed(),
                None => Self::decoded(item@) is None,
            },
    ;

    /// Whether the pattern is the id or the name of the record.
    fn answers_to(&self, pattern: &String) -> (b: bool)
        ensures
            b == (Self::id_of(self@) == pattern@ || Self::name_of(self@) == pattern@),
    ;

    /// A well-formed record has an id that is not empty.
    proof fn lemma_well_formed_id(&self)
        requires
            self.well_formed(),
        ensures
            Self::id_of(self@).len() > 0,
    ;

    /// A value decodes exactly when its member `id` is a text that is not
    /// empty, and that text is the id of the record.
    proof fn lemma_decoded_id(item: JsonView)
        ensures
            Self::decoded(item) is Some <==> has_id(item),
            Self::decoded(item) matches Some(v) ==> Some(Self::id_of(v)) == item.member_text(
                "id"@,
            ),
    ;
}

/// Whether a JSON value has a member `id` that is a text and not empty.
pub open spec fn has_id(item: JsonView) -> bool {
    item.member_text("id"@) matches Some(id) && id.len() > 0
}

/// Whether `pattern` is the id or the name of the record, letter for letter.
pub open spec fn answers<R: Resource>(v: R::V, pattern: Seq<char>) -> bool {
    R::id_of(v) == pattern || R::name_of(v) == pattern
}

/// The views of a sequence of records, in order.
pub open spec fn views<R: View>(records: Seq<R>) -> Seq<R::V> {
    Seq::new(records.len(), |i: int| records[i]@)
}

/// Whether every record of a sequence is well formed.
pub open spec fn all_well_formed<R: Resource>(records: Seq<R>) -> bool {
    forall|i: int| 0 <= i < records.len() ==> (#[trigger] records[i]).well_formed()
}

/// Whether every element can be decoded.
pub open spec fn all_decode<R: Resource>(items: Seq<JsonView>) -> bool {
    forall|i: int| 0 <= i < items.len() ==> (#[trigger] R::decoded(items[i])) is Some
}

/// The records that the elements decode to, in the order of the elements.
pub open spec fn decoded_all<R: Resource>(items: Seq<JsonView>) -> Seq<R::V> {
    Seq::new(items.len(), |i: int| R::decoded(items[i])->0)
}

/// The records of a response: those of the array under its member `data`.
/// `None` where the response has no such array, or an element of it cannot be
/// decoded.
pub open spec fn listing<R: Resource>(response: JsonView) -> Option<Seq<R::V>> {
    match response.member("data"@) {
        Some(JsonView::Array(items)) => if all_decode::<R>(items) {
            Some(decoded_all::<R>(items))
        } else {
            None
        },
        _ => None,
    }
}

/// The first record that answers to the pattern.
pub open spec fn first_match<R: Resource>(records: Seq<R::V>, pattern: Seq<char>) -> Option<R::V>
    decreases records.len(),
{
    if records.len() == 0 {
        None
    } else if answers::<R>(records.first(), pattern) {
        Some(records.first())
    } else {
        first_match::<R>(records.drop_first(), pattern)
    }
}

/// What a lookup in a response gives.
pub open spec fn found<R: Resource>(response: JsonView, pattern: Seq<char>) -> Result<
    R::V,
    RancherError,
> {
    match listing::<R>(response) {
        None => Err(RancherError::Decode),
        Some(records) => match first_match::<R>(records, pattern) {
            Some(v) => Ok(v),
            None => Err(RancherError::NotFound(R::spec_kind())),
        },
    }
}

/// The records that the end of a transfer gives: those of the response that
/// it brought.
pub open spec fn listed<R: Resource>(transfer: Transfer) -> Result<Seq<R::V>, RancherError> {
    match received(transfer) {
        Err(e) => Err(e),
        Ok(response) => match listing::<R>(response) {
            Some(records) => Ok(records),
            None => Err(RancherError::Decode),
        },
    }
}

/// What a lookup gives at the end of a transfer: what it gives in the response
/// that the transfer brought.
pub open spec fn looked_up<R: Resource>(transfer: Transfer, pattern: Seq<char>) -> Result<
    R::V,
    RancherError,
> {
    match received(transfer) {
        Err(e) => Err(e),
        Ok(response) => found::<R>(response, pattern),
    }
}

/// A response can be listed exactly when its member `data` is an array and
/// every element of it has an id.
pub proof fn lemma_listing_defined<R: Resource>(response: JsonView)
    ensures
        listing::<R>(response) is Some <==> (response.member("data"@) matches Some(
            JsonView::Array(items),
        ) && forall|i: int| 0 <= i < items.len() ==> has_id(#[trigger] items[i])),
{
    if let Some(JsonView::Array(items)) = response.member("data"@) {
        assert forall|i: int| 0 <= i < items.len() implies (has_id(#[trigger] items[i])
            <==> R::decoded(items[i]) is Some) by {
            R::lemma_decoded_id(items[i]);
        }
    }
}

/// A listing keeps the order and the length of the response: it has as many
/// records as the array has elements, and the record at each place is the one
/// that the element at that place decodes to.
pub proof fn lemma_listing_keeps_order<R: Resource>(response: JsonView, items: Seq<JsonView>)
    requires
        response.member("data"@) == Some(JsonView::Array(items)),
        forall|i: int| 0 <= i < items.len() ==> has_id(#[trigger] items[i]),
    ensures
        listing::<R>(response) matches Some(records) && records.len() == items.len() && forall|
            i: int,
        |
            0 <= i < items.len() ==> R::decoded(items[i]) == Some(#[trigger] records[i]),
{
    assert forall|i: int| 0 <= i < items.len() implies (#[trigger] R::decoded(
        items[i],
    )) is Some by {
        R::lemma_decoded_id(items[i]);
    }
}

/// Every record of a listing carries the id of the element it was decoded
/// from, and that id is not empty.
pub proof fn lemma_listing_ids<R: Resource>(response: JsonView, items: Seq<JsonView>, i: int)
    requires
        response.member("data"@) == Some(JsonView::Array(items)),
        listing::<R>(response) is Some,
        0 <= i < items.len(),
    ensures
        Some(R::id_of(listing::<R>(response)->0[i])) == items[i].member_text("id"@),
        R::id_of(listing::<R>(response)->0[i]).len() > 0,
{
    R::lemma_decoded_id(items[i]);
}

/// What the first match is: the record at the least place that answers to the
/// pattern, and `None` exactly where no record answers to it.
pub proof fn lemma_first_match<R: Resource>(records: Seq<R::V>, pattern: Seq<char>)
    ensures
        match first_match::<R>(records, pattern) {
            Some(v) => exists|i: int|
                0 <= i < records.len() && #[trigger] records[i] == v && answers::<R>(v, pattern)
                    && forall|k: int| 0 <= k < i ==> !answers::<R>(#[trigger] records[k], pattern),
            None => forall|k: int|
                0 <= k < records.len() ==> !answers::<R>(#[trigger] records[k], pattern),
        },
    decreases records.len(),
{
    if records.len() == 0 {
    } else if answers::<R>(records.first(), pattern) {
    } else {
        let rest = records.drop_first();
        lemma_first_match::<R>(rest, pattern);
        assert forall|k: int| 0 <= k < rest.len() implies rest[k] == records[k + 1] by {}
        match first_match::<R>(rest, pattern) {
            Some(v) => {
                let i = choose|i: int|
                    0 <= i < rest.len() && #[trigger] rest[i] == v && answers::<R>(v, pattern)
                        && forall|k: int| 0 <= k < i ==> !answers::<R>(#[trigger] rest[k], pattern);
                assert forall|k: int| 0 <= k < i + 1 implies !answers::<R>(
                    #[trigger] records[k],
                    pattern,
                ) by {
                    if k > 0 {
                        assert(rest[k - 1] == records[k]);
                    }
                }
            },
            None => {
                assert forall|k: int| 0 <= k < records.len() implies !answers::<R>(
                    #[trigger] records[k],
                    pattern,
                ) by {
                    if k > 0 {
                        assert(rest[k - 1] == records[k]);
                    }
                }
            },
        }
    }
}

/// Where exactly one record of the listing answers to the pattern, the lookup
/// gives that record.
pub proof fn lemma_found_unique<R: Resource>(response: JsonView, pattern: Seq<char>, i: int)
    requires
        listing::<R>(response) matches Some(records) && 0 <= i < records.len() && answers::<R>(
            records[i],
            pattern,
        ) && forall|k: int|
            0 <= k < records.len() && k != i ==> !answers::<R>(#[trigger] records[k], pattern),
    ensures
        found::<R>(response, pattern) == Ok::<R::V, RancherError>(listing::<R>(response)->0[i]),
{
    lemma_first_match::<R>(listing::<R>(response)->0, pattern);
}

/// Where no record of the listing answers to the pattern, the lookup fails
/// and reports that nothing was found; it gives no record.
pub proof fn lemma_found_none<R: Resource>(response: JsonView, pattern: Seq<char>)
    requires
        listing::<R>(response) matches Some(records) && forall|k: int|
            0 <= k < records.len() ==> !answers::<R>(#[trigger] records[k], pattern),
    ensures
        found::<R>(response, pattern) == Err::<R::V, RancherError>(
            RancherError::NotFound(R::spec_kind()),
        ),
{
    lemma_first_match::<R>(listing::<R>(response)->0, pattern);
}

/// A lookup that succeeds gives a record of the listing that answers to the
/// pattern.
pub proof fn lemma_found_answers<R: Resource>(response: JsonView, pattern: Seq<char>)
    requires
        found::<R>(response, pattern) is Ok,
    ensures
        answers::<R>(found::<R>(response, pattern)->Ok_0, pattern),
        listing::<R>(response)->0.contains(found::<R>(response, pattern)->Ok_0),
{
    lemma_first_match::<R>(listing::<R>(response)->0, pattern);
}

/// The id of an element of a listing: its member `id`, where that is a text
/// and not empty.
pub fn decode_id(item: &Json) -> (r: Option<String>)
    ensures
        match r {
            Some(id) => has_id(item@) && item@.member_text("id"@) == Some(id@),
            None => !has_id(item@),
        },
{
    match item.get_str("id") {
        Some(id) => if id.as_str().is_empty() {
            None
        } else {
            Some(id.clone())
        },
        None => None,
    }
}

/// Decodes the listing that a response carries.
pub fn list_all<R: Resource>(response: &Json) -> (r: Result<Vec<R>, RancherError>)
    ensures
        match r {
            Ok(records) => listing::<R>(response@) == Some(views(records@)) && all_well_formed(
                records@,
            ),
            Err(e) => e == RancherError::Decode && listing::<R>(response@) is None,
        },
{
    let items = match response.get("data") {
        Some(data) => match data.as_array() {
            Some(items) => items,
            None => { return Err(RancherError::Decode); },
        },
        None => { return Err(RancherError::Decode); },
    };
    let ghost sources = response@.member("data"@)->0->Array_0;
    let mut records: Vec<R> = Vec::new();
    let mut i: usize = 0;
    while i < items.len()
        invariant
            i <= items.len(),
            records.len() == i,
            sources.len() == items.len(),
            response@.member("data"@) == Some(JsonView::Array(sources)),
            forall|k: int| 0 <= k < items.len() ==> #[trigger] sources[k] == items[k]@,
            forall|k: int|
                0 <= k < i ==> (#[trigger] R::decoded(sources[k])) == Some(records[k]@),
            all_well_formed(records@),
        decreases items.len() - i,
    {
        assert(sources[i as int] == items[i as int]@);
        match R::decode(&items[i]) {
            Some(record) => {
                records.push(record);
            },
            None => {
                return Err(RancherError::Decode);
            },
        }
        i += 1;
    }
    Ok(records)
}

/// Looks up, in the listing that a response carries, the first record that
/// answers to the pattern.
pub fn find_one<R: Resource>(response: &Json, pattern: &str) -> (r: Result<R, RancherError>)
    ensures
        match r {
            Ok(record) => found::<R>(response@, pattern@) == Ok::<R::V, RancherError>(record@)
                && record.well_formed(),
            Err(e) => found::<R>(response@, pattern@) == Err::<R::V, RancherError>(e),
        },
{
    let mut records = match list_all::<R>(response) {
        Ok(records) => records,
        Err(e) => { return Err(e); },
    };
    let wanted = String::from_str(pattern);
    let ghost all = views(records@);
    let mut i: usize = 0;
    assert(all.skip(0) =~= all);
    while i < records.len()
        invariant
            i <= records.len(),
            wanted@ == pattern@,
            all == views(records@),
            all_well_formed(records@),
            listing::<R>(response@) == Some(all),
            first_match::<R>(all, pattern@) == first_match::<R>(all.skip(i as int), pattern@),
        decreases records.len() - i,
    {
        assert(all.skip(i as int).drop_first() =~= all.skip(i as int + 1));
        if records[i].answers_to(&wanted) {
            let record = records.swap_remove(i);
            return Ok(record);
        }
        i += 1;
    }
    Err(RancherError::NotFound(R::kind()))
}

/// Decodes the listing that a transfer brought.
pub fn list_from<R: Resource>(transfer: &Transfer) -> (r: Result<Vec<R>, RancherError>)
    ensures
        match r {
            Ok(records) => listed::<R>(*transfer) == Ok::<Seq<R::V>, RancherError>(views(records@))
                && all_well_formed(records@),
            Err(e) => listed::<R>(*transfer) == Err::<Seq<R::V>, RancherError>(e),
        },
{
    match receive(transfer) {
        Ok(response) => list_all::<R>(&response),
        Err(e) => Err(e),
    }
}

/// Looks up, in the listing that a transfer brought, the first record that
/// answers to the pattern.
pub fn find_from<R: Resource>(transfer: &Transfer, pattern: &str) -> (r: Result<R, RancherError>)
    ensures
        match r {
            Ok(record) => looked_up::<R>(*transfer, pattern@) == Ok::<R::V, RancherError>(record@)
                && record.well_formed(),
            Err(e) => looked_up::<R>(*transfer, pattern@) == Err::<R::V, RancherError>(e),
        },
{
    match receive(transfer) {
        Ok(response) => find_one::<R>(&response, pattern),
        Err(e) => Err(e),
    }
}

} // verus!
