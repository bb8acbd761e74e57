use kuksa_rust_sdk::channel::Client;
use kuksa_rust_sdk::convert::{
    convert_datapoint_to_sdv, convert_datapoint_to_v1, convert_sdv_to_typed, convert_typed_to_sdv,
    convert_value_to_sdv, convert_value_to_v1, entries_to_sdv, updates_to_v1,
};
use kuksa_rust_sdk::sdv::{Failure, SdvDatapoint, SdvMetadata, SdvValue};
use kuksa_rust_sdk::v1::{DataEntry, Datapoint, Timestamp};
use kuksa_rust_sdk::{ClientError, DataType, KuksaClient, SDVClient, TypedValue, Value};

fn sdv_point(v: SdvValue) -> SdvDatapoint {
    SdvDatapoint { timestamp: None, value: Some(v) }
}

fn meta(id: i32, name: &str) -> SdvMetadata {
    SdvMetadata { id, name: name.to_string(), data_type: DataType::Float, description: String::new() }
}

fn sdv_client() -> SDVClient {
    SDVClient::try_from_host("http://localhost:55555").unwrap()
}

#[test]
fn update_resolves_ids_and_drops_unknown_paths() {
    let c = sdv_client();
    let datapoints = vec![
        ("Vehicle.Speed".to_string(), sdv_point(SdvValue::FloatValue(50.0_f32.to_bits()))),
        ("Vehicle.Unknown".to_string(), sdv_point(SdvValue::Int32Value(1))),
        ("Vehicle.Width".to_string(), sdv_point(SdvValue::Uint32Value(2))),
    ];
    let lookup = c.metadata_request(&datapoints);
    assert_eq!(
        lookup.names,
        vec!["Vehicle.Speed".to_string(), "Vehicle.Unknown".to_string(), "Vehicle.Width".to_string()]
    );
    let metadata = vec![meta(7, "Vehicle.Width"), meta(3, "Vehicle.Speed"), meta(9, "Vehicle.Width")];
    let request = c.update_datapoints(datapoints, &metadata);
    assert_eq!(
        request.datapoints,
        vec![
            (3, sdv_point(SdvValue::FloatValue(50.0_f32.to_bits()))),
            (7, sdv_point(SdvValue::Uint32Value(2))),
        ]
    );
    let none = c.update_datapoints(vec![("A".to_string(), sdv_point(SdvValue::BoolValue(true)))], &Vec::new());
    assert!(none.datapoints.is_empty());
}

#[test]
fn legacy_requests_carry_their_arguments() {
    let c = sdv_client();
    assert_eq!(c.subscribe("SELECT Vehicle.Speed".to_string()).query, "SELECT Vehicle.Speed");
    assert_eq!(c.get_datapoints(vec!["A".to_string()]).datapoints, vec!["A".to_string()]);
    assert_eq!(c.get_metadata(Vec::new()).names, Vec::<String>::new());
    let set = c.set_datapoints(vec![("A".to_string(), sdv_point(SdvValue::BoolValue(false)))]);
    assert_eq!(set.datapoints, vec![("A".to_string(), sdv_point(SdvValue::BoolValue(false)))]);
}

#[test]
fn unsupported_operations_fail_explicitly() {
    let structured = sdv_client().subscribe_current_values(vec!["Vehicle.Speed".to_string()]);
    assert!(matches!(structured, Err(ClientError::Unsupported(_))));
    let k = KuksaClient::try_from_host("http://localhost:55555").unwrap();
    let by_query = k.subscribe_query("SELECT Vehicle.Speed".to_string());
    assert!(matches!(by_query, Err(ClientError::Unsupported(_))));
}

#[test]
fn legacy_calls_on_the_previous_generation_convert_values() {
    let k = KuksaClient::try_from_host("http://localhost:55555").unwrap();
    let batch = k.update_datapoints(vec![("A".to_string(), sdv_point(SdvValue::Int64Value(-4)))]);
    let request = batch.next_request().unwrap();
    assert_eq!(request.updates[0].entry.value, Some(Datapoint { timestamp: None, value: Some(Value::Int64(-4)) }));
    let batch = k.set_datapoints(vec![("A".to_string(), sdv_point(SdvValue::FailureValue(Failure::NotAvailable)))]);
    let request = batch.next_request().unwrap();
    assert_eq!(request.updates[0].entry.actuator_target, Some(Datapoint { timestamp: None, value: None }));
    let reads = k.get_datapoints(vec!["A".to_string()]);
    assert_eq!(reads.next_request().unwrap().entries[0].path, "A");
}

#[test]
fn values_convert_between_generations() {
    assert_eq!(convert_value_to_v1(SdvValue::StringValue("x".to_string())), Some(Value::String("x".to_string())));
    assert_eq!(convert_value_to_v1(SdvValue::FailureValue(Failure::AccessDenied)), None);
    assert_eq!(convert_value_to_sdv(Value::Uint64Array(vec![1, 2])), SdvValue::Uint64Array(vec![1, 2]));
    assert_eq!(convert_typed_to_sdv(TypedValue::Double(5)), SdvValue::DoubleValue(5));
    assert_eq!(convert_sdv_to_typed(SdvValue::BoolArray(vec![true])), Some(TypedValue::BoolArray(vec![true])));
    assert_eq!(convert_sdv_to_typed(SdvValue::FailureValue(Failure::InternalError)), None);
    let stamp = Some(Timestamp { seconds: 10, nanos: 5 });
    let missing = Datapoint { timestamp: stamp, value: None };
    let legacy = convert_datapoint_to_sdv(missing.clone());
    assert_eq!(legacy, SdvDatapoint { timestamp: stamp, value: Some(SdvValue::FailureValue(Failure::NotAvailable)) });
    assert_eq!(convert_datapoint_to_v1(legacy), missing);
    let updates = updates_to_v1(vec![("A".to_string(), sdv_point(SdvValue::Int32Value(3)))]);
    assert_eq!(updates, vec![("A".to_string(), Datapoint { timestamp: None, value: Some(Value::Int32(3)) })]);
}

#[test]
fn entries_without_value_become_not_available() {
    let entries = vec![
        DataEntry { path: "A".to_string(), value: None, actuator_target: None, metadata: None },
        DataEntry {
            path: "B".to_string(),
            value: Some(Datapoint { timestamp: None, value: Some(Value::Bool(true)) }),
            actuator_target: None,
            metadata: None,
        },
    ];
    assert_eq!(
        entries_to_sdv(entries),
        vec![
            ("A".to_string(), sdv_point(SdvValue::FailureValue(Failure::NotAvailable))),
            ("B".to_string(), sdv_point(SdvValue::BoolValue(true))),
        ]
    );
}

#[test]
fn client_handles_connect_lazily() {
    assert!(KuksaClient::try_from_host("not a uri").is_none());
    assert!(SDVClient::try_from_host("http://[::1").is_none());
    let k = KuksaClient::from_host("http://localhost:55556");
    assert!(k.basic_client.channel().is_none());
    assert_eq!(k.basic_client.uri().port_u16(), Some(55556));
    let mut c = Client::new(http::Uri::from_static("http://localhost:55555"));
    assert_eq!(c.authorization(), None);
    c.set_access_token("abc".to_string());
    assert_eq!(c.authorization(), Some("Bearer abc".to_string()));
    let s = SDVClient::new(http::Uri::from_static("http://localhost:1"));
    assert_eq!(s.basic_client.uri().host(), Some("localhost"));
}
