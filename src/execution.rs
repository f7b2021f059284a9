//! Reading the execution backend's reply to an order.
use vstd::prelude::*;

verus! {

/// Why an order submission failed.
#[derive(Debug)]
pub enum SubmitError {
    /// The order's price would divide by zero.
    DegenerateOrder,
    /// The backend answered with a status outside 2xx.
    BackendRejected { status: u16, body: String },
    /// The backend read the order and refused it.
    OrderRejected { reason: String },
    /// The backend's 2xx answer is not a reply that can be read.
    MalformedResponse { body: String },
    /// The request could not be sent or its answer not received.
    Transport(String),
}

/// The backend's reply to an order, as its JSON body holds it.
#[derive(Debug)]
pub struct OrderResponse {
    pub success: bool,
    pub order_id: Option<String>,
    pub error: Option<String>,
}

/// Whether an HTTP status is a success (2xx).
pub open spec fn is_success_status(status: u16) -> bool {
    200 <= status < 300
}

/// The reason of a refused order: the backend's message, or a generic one.
pub open spec fn rejection_reason(error: Option<String>) -> Seq<char> {
    match error {
        Some(e) => e@,
        None => "Unknown error"@,
    }
}

/// What came of an order from the backend's answer: its HTTP status, its body,
/// and the reply parsed from the body (`None` where the body is not a reply).
/// Success gives the order identifier, where the backend gave one.
pub fn interpret_reply(status: u16, body: String, parsed: Option<OrderResponse>) -> (r: Result<
    Option<String>,
    SubmitError,
>)
    ensures
        !is_success_status(status) ==> r == Err::<Option<String>, SubmitError>(
            SubmitError::BackendRejected { status, body },
        ),
        is_success_status(status) ==> (match parsed {
            None => r == Err::<Option<String>, SubmitError>(
                SubmitError::MalformedResponse { body },
            ),
            Some(resp) => if resp.success {
                r == Ok::<Option<String>, SubmitError>(resp.order_id)
            } else {
                r matches Err(SubmitError::OrderRejected { reason }) && reason@ == rejection_reason(
                    resp.error,
                )
            },
        }),
{
    if status < 200 || status >= 300 {
        return Err(SubmitError::BackendRejected { status, body });
    }
    match parsed {
        None => Err(SubmitError::MalformedResponse { body }),
        Some(resp) => {
            if resp.success {
                Ok(resp.order_id)
            } else {
                let reason = match resp.error {
                    Some(e) => e,
                    None => String::from_str("Unknown error"),
                };
                Err(SubmitError::OrderRejected { reason })
            }
        },
    }
}

} // verus!
