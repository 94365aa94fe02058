use opencode_sdk::{ClientBuilder, Duration};

#[test]
fn test_client_builder_defaults() {
    let builder = ClientBuilder::new();
    assert_eq!(builder.base_url, "http://127.0.0.1:4096");
    assert_eq!(builder.timeout, Duration::from_secs(300));
    assert!(builder.directory.is_none());
}

#[test]
fn test_client_builder_customization() {
    let builder = ClientBuilder::new()
        .base_url("http://localhost:8080")
        .directory("/my/project")
        .timeout_secs(60);

    assert_eq!(builder.base_url, "http://localhost:8080");
    assert_eq!(builder.directory, Some("/my/project".to_string()));
    assert_eq!(builder.timeout, Duration::from_secs(60));
}
