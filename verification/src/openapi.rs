//! OpenAPI description of the router metrics exporter's API.
//!
//! [`ApiDoc::document`] gives the whole description as plain values; turning
//! it into an OpenAPI JSON document is left to the program that serves it.
use vstd::prelude::*;

verus! {

/// OpenAPI schema for the router-metrics-exporter API.
pub struct ApiDoc;

/// A name with a link, as the contact and the license of an API have.
#[derive(Clone, Debug, PartialEq, Eq)]
pub struct NamedLink {
    pub name: String,
    pub url: String,
}

impl View for NamedLink {
    type V = (Seq<char>, Seq<char>);

    open spec fn view(&self) -> (Seq<char>, Seq<char>) {
        (self.name@, self.url@)
    }
}

/// A server that serves the API.
#[derive(Clone, Debug, PartialEq, Eq)]
pub struct ApiServer {
    pub url: String,
    pub description: String,
}

impl View for ApiServer {
    type V = (Seq<char>, Seq<char>);

    open spec fn view(&self) -> (Seq<char>, Seq<char>) {
        (self.url@, self.description@)
    }
}

/// A tag under which operations are grouped.
#[derive(Clone, Debug, PartialEq, Eq)]
pub struct ApiTag {
    pub name: String,
    pub description: String,
}

impl View for ApiTag {
    type V = (Seq<char>, Seq<char>);

    open spec fn view(&self) -> (Seq<char>, Seq<char>) {
        (self.name@, self.description@)
    }
}

/// An operation of the API: the path it is served on and its id.
#[derive(Clone, Debug, PartialEq, Eq)]
pub struct ApiOperation {
    pub path: String,
    pub operation_id: String,
}

impl View for ApiOperation {
    type V = (Seq<char>, Seq<char>);

    open spec fn view(&self) -> (Seq<char>, Seq<char>) {
        (self.path@, self.operation_id@)
    }
}

/// The whole description of an API.
#[derive(Clone, Debug, PartialEq, Eq)]
pub struct ApiDescription {
    pub title: String,
    pub description: String,
    pub version: String,
    pub contact: NamedLink,
    pub license: NamedLink,
    pub servers: Vec<ApiServer>,
    pub tags: Vec<ApiTag>,
    pub operations: Vec<ApiOperation>,
}

/// Mathematical view of an [`ApiDescription`].
#[verifier::ext_equal]
pub struct ApiDescriptionView {
    pub title: Seq<char>,
    pub description: Seq<char>,
    pub version: Seq<char>,
    pub contact: (Seq<char>, Seq<char>),
    pub license: (Seq<char>, Seq<char>),
    pub servers: Seq<(Seq<char>, Seq<char>)>,
    pub tags: Seq<(Seq<char>, Seq<char>)>,
    pub operations: Seq<(Seq<char>, Seq<char>)>,
}

impl View for ApiDescription {
    type V = ApiDescriptionView;

    open spec fn view(&self) -> ApiDescriptionView {
        ApiDescriptionView {
            title: self.title@,
            description: self.description@,
            version: self.version@,
            contact: self.contact@,
            license: self.license@,
            servers: self.servers@.map_values(|s: ApiServer| s@),
            tags: self.tags@.map_values(|t: ApiTag| t@),
            operations: self.operations@.map_values(|o: ApiOperation| o@),
        }
    }
}

/// The description of the metrics exporter's API.
pub open spec fn metrics_api_description() -> ApiDescriptionView {
    ApiDescriptionView {
        title: "Router Metrics Exporter API"@,
        description: "Prometheus metrics exporter for the stellar-router suite"@,
        version: "0.1.0"@,
        contact: ("Stellar Router"@, "https://github.com/Maki-Zeninn/stellar-router"@),
        license: ("MIT"@, "https://github.com/Maki-Zeninn/stellar-router/blob/main/LICENSE"@),
        servers: seq![
            ("http://localhost:9090"@, "Local development server"@),
            ("http://localhost:3000"@, "Docker Compose default"@),
        ],
        tags: seq![
            ("metrics"@, "Prometheus metrics endpoints"@),
            ("health"@, "Health check endpoints"@),
        ],
        operations: seq![
            ("/metrics"@, "metrics_handler"@),
            ("/health"@, "health_handler"@),
            ("/ready"@, "ready_handler"@),
        ],
    }
}

/// Builds a pair of owned strings from two literals.
fn owned_pair(first: &str, second: &str) -> (res: (String, String))
    ensures
        res.0@ == first@,
        res.1@ == second@,
{
    (first.to_owned(), second.to_owned())
}

impl ApiDoc {
    /// The description of the metrics exporter's API: its title, version,
    /// contact, license, servers, tags and operations.
    pub fn document() -> (doc: ApiDescription)
        ensures
            doc@ == metrics_api_description(),
            doc.title@ == "Router Metrics Exporter API"@,
            doc.description@ == "Prometheus metrics exporter for the stellar-router suite"@,
            doc.version@ == "0.1.0"@,
            doc.contact.name@ == "Stellar Router"@,
            doc.contact.url@ == "https://github.com/Maki-Zeninn/stellar-router"@,
            doc.license.name@ == "MIT"@,
            doc.license.url@ == "https://github.com/Maki-Zeninn/stellar-router/blob/main/LICENSE"@,
            doc.servers.len() == 2,
            doc.servers[0].url@ == "http://localhost:9090"@,
            doc.servers[0].description@ == "Local development server"@,
            doc.servers[1].url@ == "http://localhost:3000"@,
            doc.servers[1].description@ == "Docker Compose default"@,
            doc.tags.len() == 2,
            doc.tags[0].name@ == "metrics"@,
            doc.tags[0].description@ == "Prometheus metrics endpoints"@,
            doc.tags[1].name@ == "health"@,
            doc.tags[1].description@ == "Health check endpoints"@,
            doc.operations.len() == 3,
            doc.operations[0].path@ == "/metrics"@,
            doc.operations[0].operation_id@ == "metrics_handler"@,
            doc.operations[1].path@ == "/health"@,
            doc.operations[1].operation_id@ == "health_handler"@,
            doc.operations[2].path@ == "/ready"@,
            doc.operations[2].operation_id@ == "ready_handler"@,
    {
        let (contact_name, contact_url) = owned_pair(
            "Stellar Router",
            "https://github.com/Maki-Zeninn/stellar-router",
        );
        let (license_name, license_url) = owned_pair(
            "MIT",
            "https://github.com/Maki-Zeninn/stellar-router/blob/main/LICENSE",
        );

        let mut servers: Vec<ApiServer> = Vec::new();
        let (url, description) = owned_pair("http://localhost:9090", "Local development server");
        servers.push(ApiServer { url, description });
        let (url, description) = owned_pair("http://localhost:3000", "Docker Compose default");
        servers.push(ApiServer { url, description });

        let mut tags: Vec<ApiTag> = Vec::new();
        let (name, description) = owned_pair("metrics", "Prometheus metrics endpoints");
        tags.push(ApiTag { name, description });
        let (name, description) = owned_pair("health", "Health check endpoints");
        tags.push(ApiTag { name, description });

        let mut operations: Vec<ApiOperation> = Vec::new();
        let (path, operation_id) = owned_pair("/metrics", "metrics_handler");
        operations.push(ApiOperation { path, operation_id });
        let (path, operation_id) = owned_pair("/health", "health_handler");
        operations.push(ApiOperation { path, operation_id });
        let (path, operation_id) = owned_pair("/ready", "ready_handler");
        operations.push(ApiOperation { path, operation_id });

        let doc = ApiDescription {
            title: "Router Metrics Exporter API".to_owned(),
            description: "Prometheus metrics exporter for the stellar-router suite".to_owned(),
            version: "0.1.0".to_owned(),
            contact: NamedLink { name: contact_name, url: contact_url },
            license: NamedLink { name: license_name, url: license_url },
            servers,
            tags,
            operations,
        };
        doc
    }
}

} // verus!
