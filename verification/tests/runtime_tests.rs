use opencode_sdk::ManagedRuntimeBuilder;

#[test]
fn test_managed_runtime_builder_defaults() {
    let builder = ManagedRuntimeBuilder::new();
    assert_eq!(builder.server_options.hostname, "127.0.0.1");
    assert_eq!(builder.server_options.startup_timeout_ms, 10_000);
    assert!(builder.server_options.port.is_none());
    assert!(builder.server_options.directory.is_none());
    assert!(builder.request_directory.is_none());
}

#[test]
fn test_managed_runtime_builder_directory_sets_request_directory() {
    let builder = ManagedRuntimeBuilder::new().directory("/tmp/opencode");
    assert_eq!(builder.request_directory.as_deref(), Some("/tmp/opencode"));
    assert_eq!(
        builder.server_options.directory,
        Some("/tmp/opencode".to_string())
    );
}
