//! Pay Ln

use vstd::prelude::*;
use vstd::string::StringExecFns;

use crate::{is_call_to, ApiRequest, Error, Method, Strike};

verus! {

/// Fee Policy
#[derive(Debug, Clone, Copy, Hash, PartialEq, Eq, Structural)]
pub enum FeePolicy {
    /// Fee should be included in the amount
    Inclusive,
    /// Fee should be added on top
    Exclusive,
}

/// Reference to the quotes for lightning payments.
pub const LIGHTNING_QUOTES: &'static str = "/v1/payment-quotes/lightning";

/// Reference to the directory of payment quotes.
pub const QUOTE_DIRECTORY: &'static str = "/v1/payment-quotes/";

/// Reference to the directory of payments.
pub const PAYMENT_DIRECTORY: &'static str = "/v1/payments/";

/// Reference to the execution of the quote `payment_quote_id`.
pub open spec fn execute_reference(payment_quote_id: Seq<char>) -> Seq<char> {
    QUOTE_DIRECTORY@ + payment_quote_id + "/execute"@
}

/// Reference to the payment `payment_id`.
pub open spec fn payment_reference(payment_id: Seq<char>) -> Seq<char> {
    PAYMENT_DIRECTORY@ + payment_id
}

impl Strike {
    /// The call that asks for a payment quote; the quote request goes with it.
    pub fn payment_quote_request(&self) -> (result: Result<ApiRequest, Error>)
        ensures
            is_call_to(result, *self, Method::Post, self.resource(LIGHTNING_QUOTES@), true),
    {
        self.call(Method::Post, LIGHTNING_QUOTES, true)
    }

    /// The call that executes a quote to pay an invoice.
    pub fn pay_quote_request(&self, payment_quote_id: &str) -> (result: Result<ApiRequest, Error>)
        ensures
            is_call_to(
                result,
                *self,
                Method::Patch,
                self.resource(execute_reference(payment_quote_id@)),
                false,
            ),
    {
        let reference = String::from_str(QUOTE_DIRECTORY).concat(payment_quote_id).concat(
            "/execute",
        );
        self.call(Method::Patch, reference.as_str(), false)
    }

    /// The call that looks an outgoing payment up by its id.
    pub fn get_outgoing_payment_request(&self, payment_id: &str) -> (result: Result<
        ApiRequest,
        Error,
    >)
        ensures
            is_call_to(
                result,
                *self,
                Method::Get,
                self.resource(payment_reference(payment_id@)),
                false,
            ),
    {
        let reference = String::from_str(PAYMENT_DIRECTORY).concat(payment_id);
        self.call(Method::Get, reference.as_str(), false)
    }
}

} // verus!
