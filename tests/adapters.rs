use kuksa_rust_sdk::batch::Batch;
use kuksa_rust_sdk::errors::{classify_call, classify_get, classify_set, collect_errors};
use kuksa_rust_sdk::v1::{
    DataEntry, DataEntryError, Datapoint, EntryView, ErrorRecord, Field, GetResponse, SetResponse,
};
use kuksa_rust_sdk::{ClientError, KuksaClient, Value};

fn record(code: u32, reason: &str) -> ErrorRecord {
    ErrorRecord { code, reason: reason.to_string(), message: String::new() }
}

fn point(v: Value) -> Datapoint {
    Datapoint { timestamp: None, value: Some(v) }
}

fn entry(path: &str) -> DataEntry {
    DataEntry { path: path.to_string(), value: None, actuator_target: None, metadata: None }
}

fn client() -> KuksaClient {
    KuksaClient::try_from_host("http://localhost:55555").unwrap()
}

#[test]
fn batched_set_stops_at_the_first_failure() {
    let updates = vec![
        ("A".to_string(), point(Value::Int32(1))),
        ("B".to_string(), point(Value::Int32(2))),
        ("C".to_string(), point(Value::Int32(3))),
    ];
    let mut batch = client().set_current_values(updates);
    let mut attempted = Vec::new();
    while let Some(request) = batch.next_request() {
        let path = request.updates[0].entry.path.clone();
        let outcome = if path == "B" {
            Err(ClientError::Function(vec![record(404, "not_found")]))
        } else {
            Ok(())
        };
        attempted.push(path);
        batch.record_done(outcome);
    }
    assert_eq!(attempted, vec!["A".to_string(), "B".to_string()]);
    assert!(batch.is_finished());
    assert_eq!(batch.issued(), 2);
    match batch.finish() {
        Err(ClientError::Function(records)) => assert_eq!(records, vec![record(404, "not_found")]),
        other => panic!("unexpected outcome {:?}", other),
    }
}

#[test]
fn batched_set_writes_each_path_with_its_mask() {
    let updates = vec![("Vehicle.Speed".to_string(), point(Value::Float(30.0_f32.to_bits())))];
    let batch = client().set_target_values(updates);
    let request = batch.next_request().unwrap();
    assert_eq!(request.updates.len(), 1);
    let update = &request.updates[0];
    assert_eq!(update.entry.path, "Vehicle.Speed");
    assert_eq!(update.entry.value, None);
    assert_eq!(update.entry.actuator_target, Some(point(Value::Float(30.0_f32.to_bits()))));
    assert_eq!(update.fields, vec![Field::ActuatorTarget, Field::Path]);
}

#[test]
fn batched_get_concatenates_in_request_order() {
    let paths = vec!["A".to_string(), "B".to_string()];
    let mut batch = client().get_current_values(paths);
    let mut answers = vec![vec![entry("A")], vec![entry("B.1"), entry("B.2")]].into_iter();
    while let Some(request) = batch.next_request() {
        assert_eq!(request.entries.len(), 1);
        assert_eq!(request.entries[0].view, EntryView::CurrentValue);
        assert_eq!(request.entries[0].fields, vec![Field::Value, Field::Metadata]);
        batch.record(Ok(answers.next().unwrap()));
    }
    let entries = batch.finish().unwrap();
    let paths: Vec<String> = entries.into_iter().map(|e| e.path).collect();
    assert_eq!(paths, vec!["A".to_string(), "B.1".to_string(), "B.2".to_string()]);
}

#[test]
fn metadata_and_target_reads_ask_for_their_members() {
    let batch = client().get_metadata(vec!["A".to_string()]);
    let request = batch.next_request().unwrap();
    assert_eq!(request.entries[0].view, EntryView::Metadata);
    assert_eq!(request.entries[0].fields, vec![Field::Metadata]);
    let batch = client().get_target_values(vec!["A".to_string()]);
    let request = batch.next_request().unwrap();
    assert_eq!(request.entries[0].view, EntryView::TargetValue);
    assert_eq!(request.entries[0].fields, vec![Field::ActuatorTarget, Field::Metadata]);
}

#[test]
fn empty_batch_succeeds_without_calls() {
    let batch = client().get_current_values(Vec::new());
    assert!(batch.next_request().is_none());
    assert!(batch.is_finished());
    assert_eq!(batch.finish().unwrap(), Vec::new());
    let direct: Batch<u8, u8> = Batch::new(vec![1, 2]);
    assert_eq!(direct.issued(), 0);
    assert!(!direct.is_finished());
}

#[test]
fn subscribe_then_publish_speed() {
    let c = client();
    let subscription = c.subscribe(vec!["Vehicle.Speed".to_string()]);
    assert_eq!(subscription.entries.len(), 1);
    assert_eq!(subscription.entries[0].path, "Vehicle.Speed");
    assert_eq!(subscription.entries[0].view, EntryView::CurrentValue);
    assert_eq!(subscription.entries[0].fields, vec![Field::Value, Field::Metadata]);
    let publish = c.set_current_values(vec![(
        "Vehicle.Speed".to_string(),
        point(Value::Float(30.0_f32.to_bits())),
    )]);
    let request = publish.next_request().unwrap();
    let written = request.updates[0].entry.value.clone().unwrap().value.unwrap();
    assert_eq!(written, Value::Float(30.0_f32.to_bits()));
    assert_eq!(request.updates[0].fields, vec![Field::Value, Field::Path]);
    let targets = c.subscribe_target_values(vec!["Vehicle.Speed".to_string()]);
    assert_eq!(targets.entries[0].fields, vec![Field::ActuatorTarget]);
}

#[test]
fn error_records_are_collected_in_order() {
    let errors = vec![
        DataEntryError { path: "A".to_string(), error: Some(record(1, "a")) },
        DataEntryError { path: "B".to_string(), error: None },
        DataEntryError { path: "C".to_string(), error: Some(record(3, "c")) },
    ];
    let all = collect_errors(Some(record(0, "top")), errors);
    assert_eq!(all, vec![record(0, "top"), record(1, "a"), record(3, "c")]);
    assert_eq!(collect_errors(None, Vec::new()), Vec::new());
}

#[test]
fn outcomes_are_classified() {
    let ok = classify_set(Ok(SetResponse { error: None, errors: vec![] }));
    assert!(ok.is_ok());
    let silent = classify_set(Ok(SetResponse {
        error: None,
        errors: vec![DataEntryError { path: "A".to_string(), error: None }],
    }));
    assert!(silent.is_ok());
    match classify_set(Ok(SetResponse { error: Some(record(403, "forbidden")), errors: vec![] })) {
        Err(ClientError::Function(records)) => assert_eq!(records, vec![record(403, "forbidden")]),
        other => panic!("unexpected outcome {:?}", other),
    }
    match classify_set(Err(tonic::Status::unavailable("down"))) {
        Err(ClientError::Status(s)) => assert_eq!(s.code(), tonic::Code::Unavailable),
        other => panic!("unexpected outcome {:?}", other),
    }
    let got = classify_get(Ok(GetResponse { entries: vec![entry("A")], errors: vec![], error: None }));
    assert_eq!(got.unwrap(), vec![entry("A")]);
    match classify_get(Ok(GetResponse {
        entries: vec![entry("A")],
        errors: vec![DataEntryError { path: "A".to_string(), error: Some(record(404, "not_found")) }],
        error: None,
    })) {
        Err(ClientError::Function(records)) => assert_eq!(records, vec![record(404, "not_found")]),
        other => panic!("unexpected outcome {:?}", other),
    }
    assert_eq!(classify_call::<u8>(Ok(7)).unwrap(), 7);
    assert!(matches!(classify_call::<u8>(Err(tonic::Status::internal("x"))), Err(ClientError::Status(_))));
}
