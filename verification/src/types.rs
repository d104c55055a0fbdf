//! The values that the API takes and gives back.
//!
//! Each type that holds strings or vectors has a view made of sequences, over
//! which the contracts of `handlers` speak.
use vstd::prelude::*;

verus! {

/// Optional details about the route that a simulated call goes through.
#[derive(Clone, Debug, PartialEq, Eq)]
pub struct RouteDetails {
    /// Name of the route.
    pub name: String,
    /// Version of the route, if the caller pins one.
    pub version: Option<u32>,
    /// Names of the outputs that the caller expects, if it names any.
    pub expected_outputs: Option<Vec<String>>,
}

/// Mathematical view of a [`RouteDetails`].
#[verifier::ext_equal]
pub struct RouteDetailsView {
    pub name: Seq<char>,
    pub version: Option<u32>,
    pub expected_outputs: Option<Seq<Seq<char>>>,
}

impl View for RouteDetails {
    type V = RouteDetailsView;

    open spec fn view(&self) -> RouteDetailsView {
        RouteDetailsView {
            name: self.name@,
            version: self.version,
            expected_outputs: match self.expected_outputs {
                Some(outputs) => Some(outputs.deep_view()),
                None => None,
            },
        }
    }
}

/// A request to simulate a call of `function` on the contract `target`.
#[derive(Clone, Debug, PartialEq, Eq)]
pub struct SimulateRequest {
    /// Address of the contract to call.
    pub target: String,
    /// Name of the function to call.
    pub function: String,
    /// Route to go through, if the caller names one.
    pub route_details: Option<RouteDetails>,
}

/// Mathematical view of a [`SimulateRequest`].
#[verifier::ext_equal]
pub struct SimulateRequestView {
    pub target: Seq<char>,
    pub function: Seq<char>,
    pub route_details: Option<RouteDetailsView>,
}

impl View for SimulateRequest {
    type V = SimulateRequestView;

    open spec fn view(&self) -> SimulateRequestView {
        SimulateRequestView {
            target: self.target@,
            function: self.function@,
            route_details: match self.route_details {
                Some(details) => Some(details@),
                None => None,
            },
        }
    }
}

/// The fees that a simulated call is estimated to cost.
///
/// `surge_multiplier` is a percentage: 100 is the normal price, 200 twice it.
#[derive(Clone, Copy, Debug, PartialEq, Eq, Structural)]
pub struct FeeEstimate {
    pub base_fee: u64,
    pub resource_fee: u64,
    pub total_fee: u64,
    pub surge_multiplier: u32,
    pub high_load: bool,
}

impl FeeEstimate {
    /// The total is the base fee plus the resource fee, scaled by the surge
    /// multiplier (a percentage), and the network is under high load exactly
    /// when the multiplier is above the normal 100.
    pub open spec fn is_consistent(self) -> bool {
        &&& self.total_fee * 100 == (self.base_fee + self.resource_fee) * self.surge_multiplier
        &&& self.high_load == (self.surge_multiplier > 100)
    }
}

/// How a simulated call is routed.
#[derive(Clone, Debug, PartialEq, Eq)]
pub struct RouteBreakdown {
    pub route_name: String,
    pub version: u32,
    pub target_contract: String,
    pub function: String,
}

/// Mathematical view of a [`RouteBreakdown`].
#[verifier::ext_equal]
pub struct RouteBreakdownView {
    pub route_name: Seq<char>,
    pub version: u32,
    pub target_contract: Seq<char>,
    pub function: Seq<char>,
}

impl View for RouteBreakdown {
    type V = RouteBreakdownView;

    open spec fn view(&self) -> RouteBreakdownView {
        RouteBreakdownView {
            route_name: self.route_name@,
            version: self.version,
            target_contract: self.target_contract@,
            function: self.function@,
        }
    }
}

/// The answer to a [`SimulateRequest`] that was accepted.
#[derive(Clone, Debug, PartialEq, Eq)]
pub struct SimulateResponse {
    pub success: bool,
    pub estimated_fees: FeeEstimate,
    pub expected_outputs: Vec<String>,
    pub route_breakdown: RouteBreakdown,
    pub message: String,
}

/// Mathematical view of a [`SimulateResponse`].
#[verifier::ext_equal]
pub struct SimulateResponseView {
    pub success: bool,
    pub estimated_fees: FeeEstimate,
    pub expected_outputs: Seq<Seq<char>>,
    pub route_breakdown: RouteBreakdownView,
    pub message: Seq<char>,
}

impl View for SimulateResponse {
    type V = SimulateResponseView;

    open spec fn view(&self) -> SimulateResponseView {
        SimulateResponseView {
            success: self.success,
            estimated_fees: self.estimated_fees,
            expected_outputs: self.expected_outputs.deep_view(),
            route_breakdown: self.route_breakdown@,
            message: self.message@,
        }
    }
}

/// A refused request: the HTTP status code and the message sent back.
#[derive(Clone, Debug, PartialEq, Eq)]
pub struct ApiError {
    pub status: u16,
    pub message: String,
}

/// Mathematical view of an [`ApiError`].
#[verifier::ext_equal]
pub struct ApiErrorView {
    pub status: u16,
    pub message: Seq<char>,
}

impl View for ApiError {
    type V = ApiErrorView;

    open spec fn view(&self) -> ApiErrorView {
        ApiErrorView { status: self.status, message: self.message@ }
    }
}

/// The answer of the health check.
#[derive(Clone, Debug, PartialEq, Eq)]
pub struct HealthStatus {
    pub status: String,
}

/// Where a submitted transaction stands.
#[derive(Clone, Copy, Debug, PartialEq, Eq, Structural)]
pub enum TransactionStatus {
    Pending,
    Submitted,
    Confirmed,
    Failed,
}

/// The name of a status on the wire: its variant's name in capitals.
pub open spec fn status_name(status: TransactionStatus) -> Seq<char> {
    match status {
        TransactionStatus::Pending => "PENDING"@,
        TransactionStatus::Submitted => "SUBMITTED"@,
        TransactionStatus::Confirmed => "CONFIRMED"@,
        TransactionStatus::Failed => "FAILED"@,
    }
}

/// The status that a name on the wire stands for, if any.
pub open spec fn status_named(name: Seq<char>) -> Option<TransactionStatus> {
    if name == "PENDING"@ {
        Some(TransactionStatus::Pending)
    } else if name == "SUBMITTED"@ {
        Some(TransactionStatus::Submitted)
    } else if name == "CONFIRMED"@ {
        Some(TransactionStatus::Confirmed)
    } else if name == "FAILED"@ {
        Some(TransactionStatus::Failed)
    } else {
        None
    }
}

impl TransactionStatus {
    /// The name under which this status is sent: `PENDING`, `SUBMITTED`,
    /// `CONFIRMED` or `FAILED`.
    pub fn wire_name(&self) -> (name: &'static str)
        ensures
            name@ == status_name(*self),
            *self == TransactionStatus::Pending ==> name@ == "PENDING"@,
            *self == TransactionStatus::Submitted ==> name@ == "SUBMITTED"@,
            *self == TransactionStatus::Confirmed ==> name@ == "CONFIRMED"@,
            *self == TransactionStatus::Failed ==> name@ == "FAILED"@,
    {
        match self {
            TransactionStatus::Pending => "PENDING",
            TransactionStatus::Submitted => "SUBMITTED",
            TransactionStatus::Confirmed => "CONFIRMED",
            TransactionStatus::Failed => "FAILED",
        }
    }

    /// Reads a status back from its name on the wire; `None` for any other
    /// text (the names are case-sensitive).
    pub fn from_wire_name(name: &str) -> (res: Option<TransactionStatus>)
        ensures
            res == status_named(name@),
            name@ == "PENDING"@ ==> res == Some(TransactionStatus::Pending),
            name@ == "SUBMITTED"@ ==> res == Some(TransactionStatus::Submitted),
            name@ == "CONFIRMED"@ ==> res == Some(TransactionStatus::Confirmed),
            name@ == "FAILED"@ ==> res == Some(TransactionStatus::Failed),
            (name@ != "PENDING"@ && name@ != "SUBMITTED"@ && name@ != "CONFIRMED"@
                && name@ != "FAILED"@) ==> res is None,
    {
        proof {
            // The four names differ, so at most one of them matches.
            lemma_status_name_round_trip(TransactionStatus::Pending);
            lemma_status_name_round_trip(TransactionStatus::Submitted);
            lemma_status_name_round_trip(TransactionStatus::Confirmed);
            lemma_status_name_round_trip(TransactionStatus::Failed);
        }
        let name: String = name.to_owned();
        if name == "PENDING".to_owned() {
            Some(TransactionStatus::Pending)
        } else if name == "SUBMITTED".to_owned() {
            Some(TransactionStatus::Submitted)
        } else if name == "CONFIRMED".to_owned() {
            Some(TransactionStatus::Confirmed)
        } else if name == "FAILED".to_owned() {
            Some(TransactionStatus::Failed)
        } else {
            None
        }
    }
}

/// Reading back the name of a status gives that status.
pub proof fn lemma_status_name_round_trip(status: TransactionStatus)
    ensures
        status_named(status_name(status)) == Some(status),
{
    reveal_strlit("PENDING");
    reveal_strlit("SUBMITTED");
    reveal_strlit("CONFIRMED");
    reveal_strlit("FAILED");
    // The four names already differ in their first letter.
    assert("PENDING"@[0] == 'P');
    assert("SUBMITTED"@[0] == 'S');
    assert("CONFIRMED"@[0] == 'C');
    assert("FAILED"@[0] == 'F');
}

/// The four statuses go by four different names.
pub proof fn lemma_status_names_distinct(a: TransactionStatus, b: TransactionStatus)
    ensures
        status_name(a) == status_name(b) <==> a == b,
{
    lemma_status_name_round_trip(a);
    lemma_status_name_round_trip(b);
}

/// A name that reads as a status is that status's name.
pub proof fn lemma_status_named_is_exact(name: Seq<char>)
    ensures
        status_named(name) matches Some(status) ==> status_name(status) == name,
{
}

/// A change in the status of a submitted transaction, as it is reported.
#[derive(Clone, Debug, PartialEq, Eq)]
pub struct TransactionStatusEvent {
    pub tx_id: String,
    pub status: TransactionStatus,
    pub timestamp: String,
    pub message: Option<String>,
}

} // verus!
