//! What the API server answers on `/health` and `/simulate`.
//!
//! The HTTP framing (routing, JSON, status codes as `axum` types) is the
//! caller's; these functions decide the status code and the body.
use vstd::prelude::*;

use crate::types::{
    ApiError, ApiErrorView, FeeEstimate, HealthStatus, RouteBreakdown, RouteBreakdownView,
    SimulateRequest, SimulateRequestView, SimulateResponse, SimulateResponseView,
};

verus! {

/// HTTP status code of an answer that went through.
pub const HTTP_OK: u16 = 200;

/// HTTP status code of a request that was refused as malformed.
pub const HTTP_BAD_REQUEST: u16 = 400;

/// A simulation needs both a target contract and a function name.
pub open spec fn is_valid_request(req: SimulateRequestView) -> bool {
    req.target.len() > 0 && req.function.len() > 0
}

/// The answer to a request that lacks its target or its function.
pub open spec fn missing_fields_error() -> ApiErrorView {
    ApiErrorView { status: HTTP_BAD_REQUEST, message: "target and function are required"@ }
}

/// The fee that every simulation quotes: a base fee of 100 and a resource
/// fee of 1000 at the normal price.
pub open spec fn quoted_fee() -> FeeEstimate {
    FeeEstimate {
        base_fee: 100,
        resource_fee: 1000,
        total_fee: 1100,
        surge_multiplier: 100,
        high_load: false,
    }
}

/// The route that a simulation goes through: the one the request names, or
/// the route called "default".
pub open spec fn simulated_route_name(req: SimulateRequestView) -> Seq<char> {
    match req.route_details {
        Some(details) => details.name,
        None => "default"@,
    }
}

/// The route version of a simulation: the one the request pins, else 1.
pub open spec fn simulated_version(req: SimulateRequestView) -> u32 {
    match req.route_details {
        Some(details) => match details.version {
            Some(version) => version,
            None => 1,
        },
        None => 1,
    }
}

/// The outputs that a simulation expects: those the request names, else
/// the single output "output_amount".
pub open spec fn simulated_outputs(req: SimulateRequestView) -> Seq<Seq<char>> {
    match req.route_details {
        Some(details) => match details.expected_outputs {
            Some(outputs) => outputs,
            None => seq!["output_amount"@],
        },
        None => seq!["output_amount"@],
    }
}

/// The answer to a valid simulation request.
pub open spec fn simulation_of(req: SimulateRequestView) -> SimulateResponseView {
    SimulateResponseView {
        success: true,
        estimated_fees: quoted_fee(),
        expected_outputs: simulated_outputs(req),
        route_breakdown: RouteBreakdownView {
            route_name: simulated_route_name(req),
            version: simulated_version(req),
            target_contract: req.target,
            function: req.function,
        },
        message: "Simulation successful"@,
    }
}

/// Health check: the service is up and says so.
pub fn health() -> (res: (u16, HealthStatus))
    ensures
        res.0 == HTTP_OK,
        res.1.status@ == "ok"@,
{
    (HTTP_OK, HealthStatus { status: "ok".to_owned() })
}

/// The outputs expected when the request names none.
fn default_outputs() -> (outputs: Vec<String>)
    ensures
        outputs.deep_view() == seq!["output_amount"@],
{
    let mut outputs: Vec<String> = Vec::new();
    outputs.push("output_amount".to_owned());
    outputs
}

/// Simulates a transaction: checks the request, then gives the estimated
/// fees, the expected outputs and the route breakdown, without executing
/// anything.
///
/// A request without a target or without a function is refused with
/// status 400.
pub fn simulate(req: SimulateRequest) -> (res: Result<SimulateResponse, ApiError>)
    ensures
        res is Ok <==> is_valid_request(req@),
        res matches Ok(resp) ==> resp@ == simulation_of(req@),
        res matches Err(err) ==> err@ == missing_fields_error(),
        // Refusal: exactly the requests that lack a target or a function,
        // whatever route details they carry.
        res is Ok <==> (req.target@.len() > 0 && req.function@.len() > 0),
        (req.target@.len() == 0 || req.function@.len() == 0) ==> (res matches Err(err)
            && err.status == 400 && err.message@ == "target and function are required"@),
        // An accepted request is echoed and quoted at the fixed fee.
        res matches Ok(resp) ==> {
            &&& resp.success
            &&& resp.message@ == "Simulation successful"@
            &&& resp.estimated_fees == (FeeEstimate {
                base_fee: 100,
                resource_fee: 1000,
                total_fee: 1100,
                surge_multiplier: 100,
                high_load: false,
            })
            &&& resp.route_breakdown.target_contract@ == req.target@
            &&& resp.route_breakdown.function@ == req.function@
        },
        // The route the request names, and its defaults.
        res matches Ok(resp) ==> match req.route_details {
            Some(details) => {
                &&& resp.route_breakdown.route_name@ == details.name@
                &&& details.version matches Some(v) ==> resp.route_breakdown.version == v
                &&& details.version is None ==> resp.route_breakdown.version == 1
                &&& details.expected_outputs matches Some(outputs)
                    ==> resp.expected_outputs.deep_view() == outputs.deep_view()
                &&& details.expected_outputs is None
                    ==> resp.expected_outputs.deep_view() == seq!["output_amount"@]
            },
            None => {
                &&& resp.route_breakdown.route_name@ == "default"@
                &&& resp.route_breakdown.version == 1
                &&& resp.expected_outputs.deep_view() == seq!["output_amount"@]
            },
        },
{
    if req.target.as_str().is_empty() || req.function.as_str().is_empty() {
        return Err(
            ApiError {
                status: HTTP_BAD_REQUEST,
                message: "target and function are required".to_owned(),
            },
        );
    }
    let SimulateRequest { target, function, route_details } = req;
    let (route_name, version, expected_outputs) = match route_details {
        Some(details) => {
            let version: u32 = match details.version {
                Some(version) => version,
                None => 1,
            };
            let outputs = match details.expected_outputs {
                Some(outputs) => outputs,
                None => default_outputs(),
            };
            (details.name, version, outputs)
        },
        None => ("default".to_owned(), 1u32, default_outputs()),
    };
    let estimated_fees = FeeEstimate {
        base_fee: 100,
        resource_fee: 1000,
        total_fee: 1100,
        surge_multiplier: 100,
        high_load: false,
    };
    let route_breakdown = RouteBreakdown {
        route_name,
        version,
        target_contract: target,
        function,
    };
    let response = SimulateResponse {
        success: true,
        estimated_fees,
        expected_outputs,
        route_breakdown,
        message: "Simulation successful".to_owned(),
    };
    Ok(response)
}

/// Every fee that a simulation quotes is consistent: its total is the base
/// and resource fees scaled by the surge multiplier, and it reports high
/// load exactly when the multiplier is above normal.
pub proof fn lemma_simulated_fee_is_consistent(req: SimulateRequestView)
    ensures
        simulation_of(req).estimated_fees.is_consistent(),
{
}

/// A request is accepted exactly when it has both a target and a function;
/// route details never make up for a missing one.
pub proof fn lemma_valid_iff_target_and_function(req: SimulateRequestView)
    ensures
        is_valid_request(req) <==> (req.target.len() > 0 && req.function.len() > 0),
        req.function.len() == 0 ==> !is_valid_request(req),
        req.target.len() == 0 ==> !is_valid_request(req),
        !is_valid_request(req) ==> missing_fields_error().status == 400,
{
}

/// Every simulation quotes the same fee, whatever the request: base 100,
/// resource 1000, total 1100, at the normal price and not under high load.
pub proof fn lemma_fee_is_fixed(req: SimulateRequestView)
    ensures
        simulation_of(req).estimated_fees.base_fee == 100,
        simulation_of(req).estimated_fees.resource_fee == 1000,
        simulation_of(req).estimated_fees.total_fee == 1100,
        simulation_of(req).estimated_fees.surge_multiplier == 100,
        !simulation_of(req).estimated_fees.high_load,
{
}

/// Two simulations quote the same fee, whatever their route details.
pub proof fn lemma_fee_independent_of_request(a: SimulateRequestView, b: SimulateRequestView)
    ensures
        simulation_of(a).estimated_fees == simulation_of(b).estimated_fees,
{
}

/// The route version reported is the one the request pins, and 1 when it
/// pins none or names no route.
pub proof fn lemma_version_pinned_or_one(req: SimulateRequestView)
    ensures
        req.route_details matches Some(d) ==> (d.version matches Some(v)
            ==> simulation_of(req).route_breakdown.version == v),
        (req.route_details is None || req.route_details->0.version is None)
            ==> simulation_of(req).route_breakdown.version == 1,
{
}

/// Outputs that the request names come back exactly, in order and in
/// number; otherwise the single output "output_amount" is expected.
pub proof fn lemma_outputs_as_named(req: SimulateRequestView)
    ensures
        req.route_details matches Some(d) ==> (d.expected_outputs matches Some(o)
            ==> simulation_of(req).expected_outputs == o),
        (req.route_details is None || req.route_details->0.expected_outputs is None)
            ==> simulation_of(req).expected_outputs == seq!["output_amount"@],
{
}

/// The route breakdown names the request's own target and function, and
/// the route the request names (or "default").
pub proof fn lemma_breakdown_echoes_request(req: SimulateRequestView)
    ensures
        simulation_of(req).route_breakdown.target_contract == req.target,
        simulation_of(req).route_breakdown.function == req.function,
        req.route_details matches Some(d) ==> simulation_of(req).route_breakdown.route_name == d.name,
        req.route_details is None ==> simulation_of(req).route_breakdown.route_name == "default"@,
{
}

} // verus!
