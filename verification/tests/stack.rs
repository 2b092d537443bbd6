use telemetrio::ContextStack;
use telemetrio::SpanData;

fn span(id: u64, name: &str) -> SpanData {
    SpanData { id, name: name.to_string(), fields: Vec::new(), parent: None }
}

#[test]
fn empty_lane_has_no_current_span() {
    let stack = ContextStack::new();
    assert!(stack.current().is_none());
    assert_eq!(stack.depth(), 0);
}

#[test]
fn enter_makes_span_current() {
    let mut stack = ContextStack::new();
    stack.enter(span(1, "request"));
    let current = stack.current().unwrap();
    assert_eq!(current.id, 1);
    assert_eq!(current.name, "request");
}

#[test]
fn balanced_enter_exit_restores_prior_state() {
    let mut stack = ContextStack::new();
    stack.enter(span(1, "outer"));
    assert_eq!(stack.current().unwrap().id, 1);

    stack.enter(span(2, "middle"));
    stack.enter(span(3, "inner"));
    assert_eq!(stack.current().unwrap().id, 3);
    let popped = stack.exit();
    assert_eq!(popped.id, 3);
    assert_eq!(stack.current().unwrap().id, 2);
    stack.exit();

    assert_eq!(stack.current().unwrap().id, 1);
    assert_eq!(stack.depth(), 1);
}

#[test]
fn reentering_the_same_span_nests() {
    let mut stack = ContextStack::new();
    stack.enter(span(7, "recursive"));
    stack.enter(span(7, "recursive"));
    assert_eq!(stack.depth(), 2);
    stack.exit();
    assert_eq!(stack.current().unwrap().id, 7);
    stack.exit();
    assert!(stack.current().is_none());
}
