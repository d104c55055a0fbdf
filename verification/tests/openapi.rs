use router_api::ApiDoc;

#[test]
fn api_doc_info() {
    let doc = ApiDoc::document();
    assert_eq!(doc.title, "Router Metrics Exporter API");
    assert_eq!(
        doc.description,
        "Prometheus metrics exporter for the stellar-router suite"
    );
    assert_eq!(doc.version, "0.1.0");
    assert_eq!(doc.contact.name, "Stellar Router");
    assert_eq!(doc.contact.url, "https://github.com/Maki-Zeninn/stellar-router");
    assert_eq!(doc.license.name, "MIT");
    assert_eq!(
        doc.license.url,
        "https://github.com/Maki-Zeninn/stellar-router/blob/main/LICENSE"
    );
}

#[test]
fn api_doc_servers_tags_and_operations() {
    let doc = ApiDoc::document();
    let servers: Vec<(&str, &str)> = doc
        .servers
        .iter()
        .map(|s| (s.url.as_str(), s.description.as_str()))
        .collect();
    assert_eq!(
        servers,
        vec![
            ("http://localhost:9090", "Local development server"),
            ("http://localhost:3000", "Docker Compose default"),
        ]
    );
    let tags: Vec<(&str, &str)> = doc
        .tags
        .iter()
        .map(|t| (t.name.as_str(), t.description.as_str()))
        .collect();
    assert_eq!(
        tags,
        vec![
            ("metrics", "Prometheus metrics endpoints"),
            ("health", "Health check endpoints"),
        ]
    );
    let operations: Vec<(&str, &str)> = doc
        .operations
        .iter()
        .map(|o| (o.path.as_str(), o.operation_id.as_str()))
        .collect();
    assert_eq!(
        operations,
        vec![
            ("/metrics", "metrics_handler"),
            ("/health", "health_handler"),
            ("/ready", "ready_handler"),
        ]
    );
}
