//! The adapter for the previous stable interface generation. A multi-path
//! write or read becomes one remote call per path, in the caller's order,
//! driven as a fail-fast [`Batch`]; a subscription becomes one request with an
//! entry per path. The adapter also serves the legacy operations on top of
//! this generation, converting values on the way.

use vstd::prelude::*;
use crate::batch::Batch;
use crate::channel::{parse_uri, valid_uri, Client};
use crate::convert::{datapoint_to_v1, updates_to_v1};
use crate::errors::{unsupported, ClientError};
use crate::sdv::{QueryRequest, SdvDatapoint};
use crate::v1::{
    DataEntry, Datapoint, EntryRequest, EntryUpdate, EntryView, Field, GetRequest, SetRequest,
    SubscribeEntry, SubscribeRequest,
};

verus! {

/// The members written by a write of current values, or of target values.
pub open spec fn set_fields(target: bool) -> Seq<Field> {
    if target {
        seq![Field::ActuatorTarget, Field::Path]
    } else {
        seq![Field::Value, Field::Path]
    }
}

/// The members asked for by a read of the facet `view`.
pub open spec fn get_fields(view: EntryView) -> Seq<Field> {
    match view {
        EntryView::CurrentValue => seq![Field::Value, Field::Metadata],
        EntryView::TargetValue => seq![Field::ActuatorTarget, Field::Metadata],
        EntryView::Metadata => seq![Field::Metadata],
        _ => Seq::empty(),
    }
}

/// The members pushed by a subscription to the facet `view`.
pub open spec fn subscribe_fields(view: EntryView) -> Seq<Field> {
    match view {
        EntryView::CurrentValue => seq![Field::Value, Field::Metadata],
        EntryView::TargetValue => seq![Field::ActuatorTarget],
        _ => Seq::empty(),
    }
}

/// `q` writes `datapoint` to `path` alone: as its current value, or as its
/// target value.
pub open spec fn writes(q: SetRequest, path: String, datapoint: Datapoint, target: bool) -> bool {
    &&& q.updates@.len() == 1
    &&& q.updates@[0].entry == if target {
        DataEntry { path, value: None, actuator_target: Some(datapoint), metadata: None }
    } else {
        DataEntry { path, value: Some(datapoint), actuator_target: None, metadata: None }
    }
    &&& q.updates@[0].fields@ == set_fields(target)
}

/// `q` reads the facet `view` of `path` alone.
pub open spec fn reads(q: GetRequest, path: String, view: EntryView) -> bool {
    &&& q.entries@.len() == 1
    &&& q.entries@[0].path == path
    &&& q.entries@[0].view == view
    &&& q.entries@[0].fields@ == get_fields(view)
}

/// `q` subscribes to the facet `view` of each of `paths`, in order.
pub open spec fn subscribes(q: SubscribeRequest, paths: Seq<String>, view: EntryView) -> bool {
    &&& q.entries@.len() == paths.len()
    &&& forall|i: int|
        0 <= i < paths.len() ==> (#[trigger] q.entries@[i]).path == paths[i] && q.entries@[i].view == view
            && q.entries@[i].fields@ == subscribe_fields(view)
}

/// `b` is a batch that has not started, with the requests `n` in number.
pub open spec fn fresh<Q>(b: Batch<Q, DataEntry>, n: nat) -> bool {
    &&& b@.wf()
    &&& b@.requests.len() == n
    &&& b@.position == 0
    &&& b@.collected.len() == 0
    &&& b@.failure is None
}

fn set_mask(target: bool) -> (r: Vec<Field>)
    ensures
        r@ == set_fields(target),
{
    if target {
        vec![Field::ActuatorTarget, Field::Path]
    } else {
        vec![Field::Value, Field::Path]
    }
}

fn get_mask(view: EntryView) -> (r: Vec<Field>)
    ensures
        r@ == get_fields(view),
{
    let r = match view {
        EntryView::CurrentValue => vec![Field::Value, Field::Metadata],
        EntryView::TargetValue => vec![Field::ActuatorTarget, Field::Metadata],
        EntryView::Metadata => vec![Field::Metadata],
        _ => Vec::new(),
    };
    assert(r@ =~= get_fields(view));
    r
}

fn subscribe_mask(view: EntryView) -> (r: Vec<Field>)
    ensures
        r@ == subscribe_fields(view),
{
    let r = match view {
        EntryView::CurrentValue => vec![Field::Value, Field::Metadata],
        EntryView::TargetValue => vec![Field::ActuatorTarget],
        _ => Vec::new(),
    };
    assert(r@ =~= subscribe_fields(view));
    r
}

/// One write request per datapoint, in order.
fn set_requests(datapoints: Vec<(String, Datapoint)>, target: bool) -> (r: Vec<SetRequest>)
    ensures
        r@.len() == datapoints@.len(),
        forall|i: int|
            0 <= i < r@.len() ==> writes(#[trigger] r@[i], datapoints@[i].0, datapoints@[i].1, target),
{
    let ghost all = datapoints@;
    let total: usize = datapoints.len();
    let mut rest = datapoints;
    let mut out: Vec<SetRequest> = Vec::new();
    let mut k: usize = 0;
    while rest.len() > 0
        invariant
            k + rest@.len() == all.len(),
            all.len() == total,
            rest@ == all.skip(k as int),
            out@.len() == k,
            forall|i: int| 0 <= i < k ==> writes(#[trigger] out@[i], all[i].0, all[i].1, target),
        decreases rest.len(),
    {
        let (path, datapoint) = rest.remove(0);
        assert(all[k as int] == (path, datapoint));
        let entry = if target {
            DataEntry { path, value: None, actuator_target: Some(datapoint), metadata: None }
        } else {
            DataEntry { path, value: Some(datapoint), actuator_target: None, metadata: None }
        };
        let request = SetRequest { updates: vec![EntryUpdate { entry, fields: set_mask(target) }] };
        out.push(request);
        k += 1;
        assert(rest@ =~= all.skip(k as int));
    }
    out
}

/// One read request per path, in order.
fn get_requests(paths: Vec<String>, view: EntryView) -> (r: Vec<GetRequest>)
    ensures
        r@.len() == paths@.len(),
        forall|i: int| 0 <= i < r@.len() ==> reads(#[trigger] r@[i], paths@[i], view),
{
    let ghost all = paths@;
    let total: usize = paths.len();
    let mut rest = paths;
    let mut out: Vec<GetRequest> = Vec::new();
    let mut k: usize = 0;
    while rest.len() > 0
        invariant
            k + rest@.len() == all.len(),
            all.len() == total,
            rest@ == all.skip(k as int),
            out@.len() == k,
            forall|i: int| 0 <= i < k ==> reads(#[trigger] out@[i], all[i], view),
        decreases rest.len(),
    {
        let path = rest.remove(0);
        assert(all[k as int] == path);
        let request = GetRequest { entries: vec![EntryRequest { path, view, fields: get_mask(view) }] };
        out.push(request);
        k += 1;
        assert(rest@ =~= all.skip(k as int));
    }
    out
}

/// One subscription request with an entry per path, in order.
fn subscribe_request(paths: Vec<String>, view: EntryView) -> (r: SubscribeRequest)
    ensures
        subscribes(r, paths@, view),
{
    let ghost all = paths@;
    let total: usize = paths.len();
    let mut rest = paths;
    let mut entries: Vec<SubscribeEntry> = Vec::new();
    let mut k: usize = 0;
    while rest.len() > 0
        invariant
            k + rest@.len() == all.len(),
            all.len() == total,
            rest@ == all.skip(k as int),
            entries@.len() == k,
            forall|i: int|
                0 <= i < k ==> (#[trigger] entries@[i]).path == all[i] && entries@[i].view == view
                    && entries@[i].fields@ == subscribe_fields(view),
        decreases rest.len(),
    {
        let path = rest.remove(0);
        assert(all[k as int] == path);
        entries.push(SubscribeEntry { path, view, fields: subscribe_mask(view) });
        k += 1;
        assert(rest@ =~= all.skip(k as int));
    }
    SubscribeRequest { entries }
}

/// A client of the previous stable interface generation.
#[derive(Debug)]
pub struct KuksaClient {
    pub basic_client: Client,
}

impl KuksaClient {
    pub fn new(uri: http::Uri) -> (r: KuksaClient)
        ensures
            r.basic_client.endpoint() == uri,
            r.basic_client.connection() is None,
            r.basic_client.credentials() is None,
    {
        KuksaClient { basic_client: Client::new(uri) }
    }

    /// A client for the endpoint written as `host`.
    pub fn from_host(host: &'static str) -> (r: KuksaClient)
        requires
            valid_uri(host@),
        ensures
            r.basic_client.connection() is None,
            r.basic_client.credentials() is None,
    {
        let uri = parse_uri(host).unwrap();
        KuksaClient::new(uri)
    }

    /// A client for the endpoint written as `host`, if `host` is an address.
    pub fn try_from_host(host: &'static str) -> (r: Option<KuksaClient>)
        ensures
            r is Some == valid_uri(host@),
            r matches Some(c) ==> c.basic_client.connection() is None,
    {
        match parse_uri(host) {
            Some(_) => Some(KuksaClient::from_host(host)),
            None => None,
        }
    }

    /// Writes current values: one call per path, in order, stopping at the
    /// first failure. Paths written before a failure stay written.
    pub fn set_current_values(&self, datapoints: Vec<(String, Datapoint)>) -> (r: Batch<SetRequest, DataEntry>)
        ensures
            fresh(r, datapoints@.len()),
            forall|i: int|
                0 <= i < datapoints@.len() ==> writes(
                    #[trigger] r@.requests[i],
                    datapoints@[i].0,
                    datapoints@[i].1,
                    false,
                ),
    {
        Batch::new(set_requests(datapoints, false))
    }

    /// Writes target values: one call per path, in order, stopping at the
    /// first failure. Paths written before a failure stay written.
    pub fn set_target_values(&self, datapoints: Vec<(String, Datapoint)>) -> (r: Batch<SetRequest, DataEntry>)
        ensures
            fresh(r, datapoints@.len()),
            forall|i: int|
                0 <= i < datapoints@.len() ==> writes(
                    #[trigger] r@.requests[i],
                    datapoints@[i].0,
                    datapoints@[i].1,
                    true,
                ),
    {
        Batch::new(set_requests(datapoints, true))
    }

    /// Reads current values: one call per path, in order; the entries come
    /// back concatenated in request order.
    pub fn get_current_values(&self, paths: Vec<String>) -> (r: Batch<GetRequest, DataEntry>)
        ensures
            fresh(r, paths@.len()),
            forall|i: int| 0 <= i < paths@.len() ==> reads(#[trigger] r@.requests[i], paths@[i], EntryView::CurrentValue),
    {
        Batch::new(get_requests(paths, EntryView::CurrentValue))
    }

    /// Reads target values: one call per path, in order.
    pub fn get_target_values(&self, paths: Vec<String>) -> (r: Batch<GetRequest, DataEntry>)
        ensures
            fresh(r, paths@.len()),
            forall|i: int| 0 <= i < paths@.len() ==> reads(#[trigger] r@.requests[i], paths@[i], EntryView::TargetValue),
    {
        Batch::new(get_requests(paths, EntryView::TargetValue))
    }

    /// Reads metadata: one call per path, in order.
    pub fn get_metadata(&self, paths: Vec<String>) -> (r: Batch<GetRequest, DataEntry>)
        ensures
            fresh(r, paths@.len()),
            forall|i: int| 0 <= i < paths@.len() ==> reads(#[trigger] r@.requests[i], paths@[i], EntryView::Metadata),
    {
        Batch::new(get_requests(paths, EntryView::Metadata))
    }

    /// Subscribes to the current values and metadata of the paths.
    pub fn subscribe_current_values(&self, paths: Vec<String>) -> (r: SubscribeRequest)
        ensures
            subscribes(r, paths@, EntryView::CurrentValue),
    {
        subscribe_request(paths, EntryView::CurrentValue)
    }

    /// Subscribes to the target values of the paths.
    pub fn subscribe_target_values(&self, paths: Vec<String>) -> (r: SubscribeRequest)
        ensures
            subscribes(r, paths@, EntryView::TargetValue),
    {
        subscribe_request(paths, EntryView::TargetValue)
    }

    /// Subscribes to the paths: to their current values.
    pub fn subscribe(&self, paths: Vec<String>) -> (r: SubscribeRequest)
        ensures
            subscribes(r, paths@, EntryView::CurrentValue),
    {
        self.subscribe_current_values(paths)
    }

    /// Publishes legacy datapoints as current values, converted to this
    /// generation, one call per path in order.
    pub fn update_datapoints(&self, datapoints: Vec<(String, SdvDatapoint)>) -> (r: Batch<SetRequest, DataEntry>)
        ensures
            fresh(r, datapoints@.len()),
            forall|i: int|
                0 <= i < datapoints@.len() ==> writes(
                    #[trigger] r@.requests[i],
                    datapoints@[i].0,
                    datapoint_to_v1(datapoints@[i].1),
                    false,
                ),
    {
        let converted = updates_to_v1(datapoints);
        self.set_current_values(converted)
    }

    /// Actuates with legacy datapoints: writes them as target values,
    /// converted to this generation, one call per path in order.
    pub fn set_datapoints(&self, datapoints: Vec<(String, SdvDatapoint)>) -> (r: Batch<SetRequest, DataEntry>)
        ensures
            fresh(r, datapoints@.len()),
            forall|i: int|
                0 <= i < datapoints@.len() ==> writes(
                    #[trigger] r@.requests[i],
                    datapoints@[i].0,
                    datapoint_to_v1(datapoints@[i].1),
                    true,
                ),
    {
        let converted = updates_to_v1(datapoints);
        self.set_target_values(converted)
    }

    /// Reads the current values of the paths for a legacy caller; the
    /// entries that come back are reshaped by
    /// [`crate::convert::entries_to_sdv`].
    pub fn get_datapoints(&self, paths: Vec<String>) -> (r: Batch<GetRequest, DataEntry>)
        ensures
            fresh(r, paths@.len()),
            forall|i: int| 0 <= i < paths@.len() ==> reads(#[trigger] r@.requests[i], paths@[i], EntryView::CurrentValue),
    {
        self.get_current_values(paths)
    }

    /// Subscription by query text no longer exists in this generation: the
    /// call fails at once.
    pub fn subscribe_query(&self, query: String) -> (r: Result<QueryRequest, ClientError>)
        ensures
            r matches Err(ClientError::Unsupported(_)),
    {
        Err(unsupported("Subscribe mechanism has changed. SQL queries not supported anymore"))
    }
}

} // verus!
