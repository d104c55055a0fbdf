use router_api::{
    health, simulate, RouteDetails, SimulateRequest, HTTP_BAD_REQUEST, HTTP_OK,
};

fn request(target: &str, function: &str, route_details: Option<RouteDetails>) -> SimulateRequest {
    SimulateRequest {
        target: target.to_string(),
        function: function.to_string(),
        route_details,
    }
}

const TARGET: &str = "CAAAAAAAAAAAAAAAAAAAAAAAAAAAAAAAAAAAAAAAAAAAAAAAAAAABSC4";

#[test]
fn health_reports_ok() {
    let (status, body) = health();
    assert_eq!(status, 200);
    assert_eq!(status, HTTP_OK);
    assert_eq!(body.status, "ok");
}

#[test]
fn simulate_with_route_details() {
    let req = request(
        TARGET,
        "transfer",
        Some(RouteDetails {
            name: "swap".to_string(),
            version: Some(3),
            expected_outputs: Some(vec!["1000000".to_string(), "fee".to_string()]),
        }),
    );
    let resp = simulate(req).unwrap();
    assert!(resp.success);
    assert_eq!(resp.message, "Simulation successful");
    assert_eq!(resp.expected_outputs, vec!["1000000".to_string(), "fee".to_string()]);
    assert_eq!(resp.route_breakdown.route_name, "swap");
    assert_eq!(resp.route_breakdown.version, 3);
    assert_eq!(resp.route_breakdown.target_contract, TARGET);
    assert_eq!(resp.route_breakdown.function, "transfer");
}

#[test]
fn simulate_without_route_details_uses_defaults() {
    let resp = simulate(request(TARGET, "transfer", None)).unwrap();
    assert_eq!(resp.route_breakdown.route_name, "default");
    assert_eq!(resp.route_breakdown.version, 1);
    assert_eq!(resp.expected_outputs, vec!["output_amount".to_string()]);
    assert_eq!(resp.route_breakdown.target_contract, TARGET);
    assert_eq!(resp.route_breakdown.function, "transfer");
}

#[test]
fn simulate_fills_missing_route_fields() {
    let req = request(
        "C1",
        "swap",
        Some(RouteDetails {
            name: "dex".to_string(),
            version: None,
            expected_outputs: None,
        }),
    );
    let resp = simulate(req).unwrap();
    assert_eq!(resp.route_breakdown.route_name, "dex");
    assert_eq!(resp.route_breakdown.version, 1);
    assert_eq!(resp.expected_outputs, vec!["output_amount".to_string()]);
}

#[test]
fn simulate_keeps_an_empty_output_list() {
    let req = request(
        "C1",
        "swap",
        Some(RouteDetails {
            name: "dex".to_string(),
            version: Some(7),
            expected_outputs: Some(vec![]),
        }),
    );
    let resp = simulate(req).unwrap();
    assert!(resp.expected_outputs.is_empty());
    assert_eq!(resp.route_breakdown.version, 7);
}

#[test]
fn simulate_quotes_a_consistent_fee() {
    let resp = simulate(request(TARGET, "transfer", None)).unwrap();
    let fee = resp.estimated_fees;
    assert_eq!(fee.base_fee, 100);
    assert_eq!(fee.resource_fee, 1000);
    assert_eq!(fee.total_fee, 1100);
    assert_eq!(fee.surge_multiplier, 100);
    assert!(!fee.high_load);
    assert_eq!(
        fee.total_fee * 100,
        (fee.base_fee + fee.resource_fee) * fee.surge_multiplier as u64
    );
}

#[test]
fn simulate_refuses_missing_target() {
    let err = simulate(request("", "transfer", None)).unwrap_err();
    assert_eq!(err.status, 400);
    assert_eq!(err.status, HTTP_BAD_REQUEST);
    assert_eq!(err.message, "target and function are required");
}

#[test]
fn simulate_refuses_missing_function() {
    let err = simulate(request(TARGET, "", None)).unwrap_err();
    assert_eq!(err.status, 400);
    assert_eq!(err.message, "target and function are required");
}

#[test]
fn simulate_refuses_both_missing() {
    let details = RouteDetails {
        name: "swap".to_string(),
        version: Some(1),
        expected_outputs: None,
    };
    let err = simulate(request("", "", Some(details))).unwrap_err();
    assert_eq!(err.status, 400);
}

#[test]
fn simulate_accepts_whitespace_names() {
    let resp = simulate(request(" ", " ", None)).unwrap();
    assert_eq!(resp.route_breakdown.target_contract, " ");
}
