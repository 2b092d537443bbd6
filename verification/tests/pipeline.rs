use telemetrio::Event;
use telemetrio::Field;
use telemetrio::Level;
use telemetrio::Pipeline;
use telemetrio::SpanData;
use telemetrio::make_event;
use telemetrio::merge_fields;
use telemetrio::process_event;

fn field(key: &str, value: &str) -> Field {
    Field { key: key.to_string(), value: value.to_string() }
}

fn lookup<'a>(fields: &'a [Field], key: &str) -> Option<&'a str> {
    fields.iter().find(|f| f.key == key).map(|f| f.value.as_str())
}

fn event(level: Level, message: &str, fields: Vec<Field>) -> Event {
    Event { level, message: message.to_string(), fields, timestamp: 11, span: None }
}

#[test]
fn ancestor_fields_flow_into_the_record() {
    let chain = vec![
        SpanData { id: 1, name: "root".to_string(), fields: vec![field("app", "svc"), field("shared", "from-root")], parent: None },
        SpanData { id: 2, name: "leaf".to_string(), fields: vec![field("request", "r-9"), field("shared", "from-leaf")], parent: Some(1) },
    ];
    let pipeline = Pipeline { name: "svc".to_string(), threshold: Level::Info };
    let ev = event(Level::Warn, "slow", vec![field("elapsed", "3s")]);

    let record = process_event(&pipeline, &chain, &ev).unwrap();
    assert_eq!(lookup(&record.fields, "app"), Some("svc"));
    assert_eq!(lookup(&record.fields, "request"), Some("r-9"));
    assert_eq!(lookup(&record.fields, "elapsed"), Some("3s"));
    // On a key two spans share, the descendant wins.
    assert_eq!(lookup(&record.fields, "shared"), Some("from-leaf"));
}

#[test]
fn event_fields_win_on_key_collision() {
    let chain = vec![SpanData {
        id: 1,
        name: "root".to_string(),
        fields: vec![field("who", "span"), field("kept", "yes")],
        parent: None,
    }];
    let ev = event(Level::Error, "boom", vec![field("who", "event")]);
    let merged = merge_fields(&chain, &ev.fields);
    assert_eq!(lookup(&merged, "who"), Some("event"));
    assert_eq!(lookup(&merged, "kept"), Some("yes"));
}

#[test]
fn merged_keys_are_unique_last_write_wins() {
    let chain = vec![SpanData {
        id: 1,
        name: "root".to_string(),
        fields: vec![field("k", "first"), field("k", "second")],
        parent: None,
    }];
    let merged = merge_fields(&chain, &Vec::new());
    assert_eq!(merged.len(), 1);
    assert_eq!(lookup(&merged, "k"), Some("second"));
}

#[test]
fn filter_drops_below_threshold_and_passes_at_or_above() {
    let pipeline = Pipeline { name: "svc".to_string(), threshold: Level::Info };
    let chain: Vec<SpanData> = Vec::new();
    assert!(process_event(&pipeline, &chain, &event(Level::Debug, "quiet", Vec::new())).is_none());
    assert!(process_event(&pipeline, &chain, &event(Level::Info, "loud", Vec::new())).is_some());
    assert!(process_event(&pipeline, &chain, &event(Level::Error, "loud", Vec::new())).is_some());
}

#[test]
fn record_carries_name_level_message_timestamp() {
    let pipeline = Pipeline { name: "svc".to_string(), threshold: Level::Trace };
    let chain: Vec<SpanData> = Vec::new();
    let ev = Event {
        level: Level::Warn,
        message: "m".to_string(),
        fields: Vec::new(),
        timestamp: 99,
        span: None,
    };
    let record = process_event(&pipeline, &chain, &ev).unwrap();
    assert_eq!(record.name, "svc");
    assert_eq!(record.level, Level::Warn);
    assert_eq!(record.message, "m");
    assert_eq!(record.timestamp, 99);
    assert!(record.fields.is_empty());
}

#[test]
fn event_is_attributed_to_the_current_span() {
    let chain = vec![
        SpanData { id: 4, name: "outer".to_string(), fields: Vec::new(), parent: None },
        SpanData { id: 9, name: "inner".to_string(), fields: Vec::new(), parent: Some(4) },
    ];
    let ev = make_event(&chain, Level::Info, "hello".to_string(), Vec::new(), 5);
    assert_eq!(ev.span, Some(9));

    let no_chain: Vec<SpanData> = Vec::new();
    let lonely = make_event(&no_chain, Level::Info, "hello".to_string(), Vec::new(), 5);
    assert_eq!(lonely.span, None);
}
