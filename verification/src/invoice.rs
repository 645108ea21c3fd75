//! Handle invoice creation

use vstd::prelude::*;
use vstd::string::StringExecFns;

use crate::endpoint::{join_url, url_joined};
use crate::{is_call_to, ApiRequest, Error, Method, Strike};

verus! {

/// Reference to the invoices of an account.
pub const INVOICES: &'static str = "/v1/invoices";

/// Reference to the directory in which each invoice stands under its id.
pub const INVOICE_DIRECTORY: &'static str = "/v1/invoices/";

/// Reference to the quote of the invoice `invoice_id`.
pub open spec fn invoice_quote_reference(invoice_id: Seq<char>) -> Seq<char> {
    INVOICE_DIRECTORY@ + invoice_id + "/quote"@
}

/// The address of the invoice `invoice_id`: the id is resolved as a reference
/// of its own against the directory of invoices.
pub open spec fn invoice_address(strike: Strike, invoice_id: Seq<char>) -> Option<Seq<char>> {
    match strike.resource(INVOICE_DIRECTORY@) {
        Some(directory) => url_joined(directory, invoice_id),
        None => None,
    }
}

impl Strike {
    /// The call that creates an invoice; the invoice request goes with it.
    pub fn create_invoice_request(&self) -> (result: Result<ApiRequest, Error>)
        ensures
            is_call_to(result, *self, Method::Post, self.resource(INVOICES@), true),
    {
        self.call(Method::Post, INVOICES, true)
    }

    /// The call that looks an invoice up.
    pub fn find_invoice_request(&self, invoice_id: &str) -> (result: Result<ApiRequest, Error>)
        ensures
            is_call_to(result, *self, Method::Get, invoice_address(*self, invoice_id@), false),
    {
        let target = match join_url(self.base_url.as_str(), INVOICE_DIRECTORY) {
            Some(directory) => join_url(directory.as_str(), invoice_id),
            None => None,
        };
        self.call_at(Method::Get, target, false)
    }

    /// The call that asks for a quote on an invoice; nothing goes with it.
    pub fn invoice_quote_request(&self, invoice_id: &str) -> (result: Result<ApiRequest, Error>)
        ensures
            is_call_to(
                result,
                *self,
                Method::Post,
                self.resource(invoice_quote_reference(invoice_id@)),
                false,
            ),
    {
        let reference = String::from_str(INVOICE_DIRECTORY).concat(invoice_id).concat("/quote");
        self.call(Method::Post, reference.as_str(), false)
    }
}

} // verus!
