use telemetrio::ContextStack;
use telemetrio::Field;
use telemetrio::SpanData;
use telemetrio::capture_current;
use telemetrio::dispatch_blocking;

fn span(id: u64, name: &str) -> SpanData {
    SpanData {
        id,
        name: name.to_string(),
        fields: vec![Field { key: "k".to_string(), value: "v".to_string() }],
        parent: None,
    }
}

#[test]
fn capture_reads_without_consuming() {
    let mut caller = ContextStack::new();
    assert!(capture_current(&caller).is_none());

    caller.enter(span(7, "request"));
    let captured = capture_current(&caller).unwrap();
    assert_eq!(captured.id, 7);
    assert_eq!(captured.name, "request");
    assert_eq!(captured.fields.len(), 1);
    assert_eq!(captured.fields[0].key, "k");
    assert_eq!(captured.fields[0].value, "v");
    // The caller's own stack is untouched and keeps running.
    assert_eq!(caller.depth(), 1);
    assert_eq!(caller.current().unwrap().id, 7);
}

#[test]
fn dispatched_closure_sees_the_captured_span() {
    let mut caller = ContextStack::new();
    caller.enter(span(7, "request"));
    let captured = capture_current(&caller);

    let mut worker = ContextStack::new();
    let seen = dispatch_blocking(captured, &mut worker, |current| current);
    // Work moved onto the worker lane is still attributed to the caller's
    // span, although the worker lane started with an empty stack.
    assert_eq!(seen, Some(7));
    // The guard released on the way out: the worker lane is fully unwound.
    assert_eq!(worker.depth(), 0);
}

#[test]
fn dispatch_without_context_passes_none() {
    let mut worker = ContextStack::new();
    let seen = dispatch_blocking(None, &mut worker, |current| current);
    assert_eq!(seen, None);
    assert_eq!(worker.depth(), 0);
}

#[test]
fn dispatch_yields_the_closure_result_unchanged() {
    let mut worker = ContextStack::new();
    let f = |_current: Option<u64>| 2 + 2;
    let direct = f(Some(7));
    let dispatched = dispatch_blocking(Some(span(7, "request")), &mut worker, f);
    assert_eq!(dispatched, direct);
}
