//! The legacy interface generation: datapoints addressed by numeric ids,
//! subscriptions by query text, and the resolution of paths to ids.

use vstd::prelude::*;
use crate::channel::{parse_uri, valid_uri, Client};
use crate::errors::{unsupported, ClientError};
use crate::v1::{DataType, SubscribeRequest, Timestamp};

verus! {

/// Why a legacy datapoint has no value.
#[derive(Debug, Clone, Copy, PartialEq, Eq, Structural)]
pub enum Failure {
    InvalidValue,
    NotAvailable,
    UnknownDatapoint,
    AccessDenied,
    InternalError,
}

/// The value of a legacy datapoint: a value, or the reason it has none.
/// Floating-point members hold their IEEE-754 bit pattern.
#[derive(Debug, Clone, PartialEq)]
pub enum SdvValue {
    FailureValue(Failure),
    StringValue(String),
    BoolValue(bool),
    Int32Value(i32),
    Int64Value(i64),
    Uint32Value(u32),
    Uint64Value(u64),
    FloatValue(u32),
    DoubleValue(u64),
    StringArray(Vec<String>),
    BoolArray(Vec<bool>),
    Int32Array(Vec<i32>),
    Int64Array(Vec<i64>),
    Uint32Array(Vec<u32>),
    Uint64Array(Vec<u64>),
    FloatArray(Vec<u32>),
    DoubleArray(Vec<u64>),
}

/// A legacy datapoint.
#[derive(Debug, Clone, PartialEq)]
pub struct SdvDatapoint {
    pub timestamp: Option<Timestamp>,
    pub value: Option<SdvValue>,
}

/// What the legacy interface knows of a signal, with its numeric id.
#[derive(Debug, Clone, PartialEq)]
pub struct SdvMetadata {
    pub id: i32,
    pub name: String,
    pub data_type: DataType,
    pub description: String,
}

/// A request to publish datapoints, each addressed by its numeric id.
#[derive(Debug, Clone, PartialEq)]
pub struct UpdateDatapointsRequest {
    pub datapoints: Vec<(i32, SdvDatapoint)>,
}

/// A request to read the datapoints of some paths.
#[derive(Debug, Clone, PartialEq)]
pub struct GetDatapointsRequest {
    pub datapoints: Vec<String>,
}

/// A request to actuate: target datapoints by path.
#[derive(Debug, Clone, PartialEq)]
pub struct SetDatapointsRequest {
    pub datapoints: Vec<(String, SdvDatapoint)>,
}

/// A request to subscribe with a query text.
#[derive(Debug, Clone, PartialEq)]
pub struct QueryRequest {
    pub query: String,
}

/// A request for the metadata of some paths; no path asks for all.
#[derive(Debug, Clone, PartialEq)]
pub struct GetMetadataRequest {
    pub names: Vec<String>,
}

/// The id of the first metadata record named `name`.
pub open spec fn id_of(metadata: Seq<SdvMetadata>, name: Seq<char>) -> Option<i32>
    decreases metadata.len(),
{
    if metadata.len() == 0 {
        None
    } else if metadata[0].name@ == name {
        Some(metadata[0].id)
    } else {
        id_of(metadata.skip(1), name)
    }
}

/// The datapoints whose path the metadata names, in their order, each
/// addressed by the id of its path.
pub open spec fn resolved(datapoints: Seq<(String, SdvDatapoint)>, metadata: Seq<SdvMetadata>) -> Seq<(i32, SdvDatapoint)>
    decreases datapoints.len(),
{
    if datapoints.len() == 0 {
        Seq::empty()
    } else {
        let rest = resolved(datapoints.drop_last(), metadata);
        match id_of(metadata, datapoints.last().0@) {
            Some(id) => rest.push((id, datapoints.last().1)),
            None => rest,
        }
    }
}

/// The id that the metadata gives the path `name`.
pub fn lookup_id(metadata: &Vec<SdvMetadata>, name: &String) -> (r: Option<i32>)
    ensures
        r == id_of(metadata@, name@),
{
    let mut i: usize = 0;
    assert(metadata@.skip(0) =~= metadata@);
    while i < metadata.len()
        invariant
            i <= metadata@.len(),
            id_of(metadata@, name@) == id_of(metadata@.skip(i as int), name@),
        decreases metadata.len() - i,
    {
        let ghost rest = metadata@.skip(i as int);
        assert(rest[0] == metadata@[i as int]);
        assert(rest.skip(1) =~= metadata@.skip(i + 1));
        if metadata[i].name == *name {
            return Some(metadata[i].id);
        }
        i += 1;
    }
    None
}

/// Addresses each datapoint by the id of its path. A datapoint whose path
/// the metadata does not name is left out.
pub fn resolve_ids(datapoints: Vec<(String, SdvDatapoint)>, metadata: &Vec<SdvMetadata>) -> (r: Vec<(i32, SdvDatapoint)>)
    ensures
        r@ == resolved(datapoints@, metadata@),
{
    let ghost all = datapoints@;
    let total: usize = datapoints.len();
    let mut rest = datapoints;
    let mut out: Vec<(i32, SdvDatapoint)> = Vec::new();
    let mut k: usize = 0;
    while rest.len() > 0
        invariant
            k + rest@.len() == all.len(),
            all.len() == total,
            rest@ == all.skip(k as int),
            out@ == resolved(all.take(k as int), metadata@),
        decreases rest.len(),
    {
        let (name, datapoint) = rest.remove(0);
        proof {
            assert(all[k as int] == (name, datapoint));
            assert(all.take(k + 1).drop_last() =~= all.take(k as int));
        }
        match lookup_id(metadata, &name) {
            Some(id) => out.push((id, datapoint)),
            None => {},
        }
        k += 1;
        assert(rest@ =~= all.skip(k as int));
    }
    assert(all.take(k as int) =~= all);
    out
}

/// Only datapoints whose path was resolved are sent: each addressed
/// datapoint is one of the given datapoints, under the id that the metadata
/// gives its path. Where the metadata names none of the paths, nothing is
/// sent.
pub proof fn only_resolved_paths_are_sent(datapoints: Seq<(String, SdvDatapoint)>, metadata: Seq<SdvMetadata>)
    ensures
        forall|k: int|
            0 <= k < resolved(datapoints, metadata).len() ==> exists|j: int|
                0 <= j < datapoints.len() && id_of(metadata, #[trigger] datapoints[j].0@) == Some(
                    (#[trigger] resolved(datapoints, metadata)[k]).0,
                ) && resolved(datapoints, metadata)[k].1 == datapoints[j].1,
        (forall|j: int| 0 <= j < datapoints.len() ==> id_of(metadata, #[trigger] datapoints[j].0@) is None)
            ==> resolved(datapoints, metadata).len() == 0,
    decreases datapoints.len(),
{
    if datapoints.len() > 0 {
        let init = datapoints.drop_last();
        only_resolved_paths_are_sent(init, metadata);
        let r = resolved(datapoints, metadata);
        let r0 = resolved(init, metadata);
        let last = datapoints.len() - 1;
        assert forall|k: int| 0 <= k < r.len() implies exists|j: int|
            0 <= j < datapoints.len() && id_of(metadata, #[trigger] datapoints[j].0@) == Some((#[trigger] r[k]).0)
                && r[k].1 == datapoints[j].1 by {
            if k < r0.len() {
                assert(r[k] == r0[k]);
                let j = choose|j: int|
                    0 <= j < init.len() && id_of(metadata, #[trigger] init[j].0@) == Some(r0[k].0)
                        && r0[k].1 == init[j].1;
                assert(0 <= j < init.len());
                assert(init[j] == datapoints[j]);
            } else {
                assert(datapoints[last] == datapoints.last());
            }
        }
        if forall|j: int| 0 <= j < datapoints.len() ==> id_of(metadata, #[trigger] datapoints[j].0@) is None {
            assert forall|j: int| 0 <= j < init.len() implies id_of(metadata, #[trigger] init[j].0@) is None by {
                assert(init[j] == datapoints[j]);
            }
            assert(datapoints[last] == datapoints.last());
        }
    }
}

/// A client of the legacy interface generation.
#[derive(Debug)]
pub struct SDVClient {
    pub basic_client: Client,
}

impl SDVClient {
    pub fn new(uri: http::Uri) -> (r: SDVClient)
        ensures
            r.basic_client.endpoint() == uri,
            r.basic_client.connection() is None,
            r.basic_client.credentials() is None,
    {
        SDVClient { basic_client: Client::new(uri) }
    }

    /// A client for the endpoint written as `host`.
    pub fn from_host(host: &'static str) -> (r: SDVClient)
        requires
            valid_uri(host@),
        ensures
            r.basic_client.connection() is None,
            r.basic_client.credentials() is None,
    {
        let uri = parse_uri(host).unwrap();
        SDVClient::new(uri)
    }

    /// A client for the endpoint written as `host`, if `host` is an address.
    pub fn try_from_host(host: &'static str) -> (r: Option<SDVClient>)
        ensures
            r is Some == valid_uri(host@),
            r matches Some(c) ==> c.basic_client.connection() is None,
    {
        match parse_uri(host) {
            Some(_) => Some(SDVClient::from_host(host)),
            None => None,
        }
    }

    /// The first step of publishing datapoints: the metadata of their paths,
    /// which gives the numeric ids they are addressed by.
    pub fn metadata_request(&self, datapoints: &Vec<(String, SdvDatapoint)>) -> (r: GetMetadataRequest)
        ensures
            r.names@.len() == datapoints@.len(),
            forall|i: int| 0 <= i < datapoints@.len() ==> (#[trigger] r.names@[i])@ == datapoints@[i].0@,
    {
        let mut names: Vec<String> = Vec::new();
        let mut i: usize = 0;
        while i < datapoints.len()
            invariant
                i <= datapoints@.len(),
                names@.len() == i,
                forall|j: int| 0 <= j < i ==> (#[trigger] names@[j])@ == datapoints@[j].0@,
            decreases datapoints.len() - i,
        {
            names.push(datapoints[i].0.clone());
            i += 1;
        }
        GetMetadataRequest { names }
    }

    /// The second step of publishing datapoints: each addressed by the id
    /// that `metadata` gives its path. A datapoint whose path the metadata
    /// does not name is not sent.
    pub fn update_datapoints(&self, datapoints: Vec<(String, SdvDatapoint)>, metadata: &Vec<SdvMetadata>) -> (r:
        UpdateDatapointsRequest)
        ensures
            r.datapoints@ == resolved(datapoints@, metadata@),
    {
        UpdateDatapointsRequest { datapoints: resolve_ids(datapoints, metadata) }
    }

    /// Reads the datapoints of the paths.
    pub fn get_datapoints(&self, paths: Vec<String>) -> (r: GetDatapointsRequest)
        ensures
            r.datapoints == paths,
    {
        GetDatapointsRequest { datapoints: paths }
    }

    /// Subscribes with a query text.
    pub fn subscribe(&self, query: String) -> (r: QueryRequest)
        ensures
            r.query == query,
    {
        QueryRequest { query }
    }

    /// Actuates: sets the target datapoints of the paths.
    pub fn set_datapoints(&self, datapoints: Vec<(String, SdvDatapoint)>) -> (r: SetDatapointsRequest)
        ensures
            r.datapoints == datapoints,
    {
        SetDatapointsRequest { datapoints }
    }

    /// Reads the metadata of the paths; no path asks for all.
    pub fn get_metadata(&self, paths: Vec<String>) -> (r: GetMetadataRequest)
        ensures
            r.names == paths,
    {
        GetMetadataRequest { names: paths }
    }

    /// A structured subscription with a field mask per path has no
    /// equivalent in this generation, which subscribes by query text: the
    /// call fails at once.
    pub fn subscribe_current_values(&self, paths: Vec<String>) -> (r: Result<SubscribeRequest, ClientError>)
        ensures
            r matches Err(ClientError::Unsupported(_)),
    {
        Err(unsupported("field-masked subscription is not supported by this interface generation"))
    }
}

} // verus!
