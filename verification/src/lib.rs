//! Request handling for the router API server and the description of the
//! metrics exporter's API, with their contracts proved by Verus.
//!
//! - `types`: the values that the API takes and gives back, each with a
//!   mathematical view.
//! - `handlers`: what the `/health` and `/simulate` endpoints answer.
//! - `openapi`: the OpenAPI description of the metrics exporter.
pub mod handlers;
pub mod openapi;
pub mod types;

pub use handlers::{health, simulate, HTTP_BAD_REQUEST, HTTP_OK};
pub use openapi::{ApiDescription, ApiDoc, ApiOperation, ApiServer, ApiTag, NamedLink};
pub use types::{
    ApiError, FeeEstimate, HealthStatus, RouteBreakdown, RouteDetails, SimulateRequest,
    SimulateResponse, TransactionStatus, TransactionStatusEvent,
};
