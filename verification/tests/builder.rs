use telemetrio::TelemetrioBuilder;

#[test]
fn builder_defaults() {
    let config = TelemetrioBuilder::default().build();
    assert_eq!(config.name, "telemetrio");
    assert_eq!(config.env_filter, "info");
}

#[test]
fn builder_keeps_what_was_set() {
    let config = TelemetrioBuilder::default()
        .name("svc".to_string())
        .env_filter("warn".to_string())
        .build();
    assert_eq!(config.name, "svc");
    assert_eq!(config.env_filter, "warn");
}

#[test]
fn builder_setters_are_independent() {
    let config = TelemetrioBuilder::default().name("svc".to_string()).build();
    assert_eq!(config.name, "svc");
    assert_eq!(config.env_filter, "info");
}
