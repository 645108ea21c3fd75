//! Client-side building blocks for the Strike payments API, with a verified
//! gateway for the webhook notifications that the service pushes back.

use vstd::prelude::*;

pub mod endpoint;
pub mod error;
pub mod hex;
pub mod invoice;
pub mod pay_ln;
pub mod request;
pub mod secret;
pub mod signature;
pub mod strings;
pub mod webhooks;

pub use error::Error;
pub use pay_ln::FeePolicy;
pub use request::{ApiRequest, Method};

verus! {

/// Address of the service, used where the caller names none. It is written in
/// the normal form in which a client keeps its address.
pub const DEFAULT_API_URL: &'static str = "https://api.strike.me/";

/// Strike
#[derive(Debug, Clone, PartialEq, Eq)]
pub struct Strike {
    /// Token that authorizes the calls to the service
    pub api_key: String,
    /// Address of the service, as an absolute URL in normal form
    pub base_url: String,
    /// Secret shared with the service for signing webhook notifications
    pub webhook_secret: String,
}

/// Currency unit
#[derive(Debug, Clone, Copy, Hash, PartialEq, Eq, Structural)]
pub enum Currency {
    /// USD
    USD,
    /// EURO
    EUR,
    /// Bitcoin
    BTC,
}

/// Invoice state
#[derive(Debug, Clone, Copy, Hash, PartialEq, Eq, Structural)]
pub enum InvoiceState {
    /// Payment Completed
    Completed,
    /// Invoice paid
    Paid,
    /// Invoice unpaid
    Unpaid,
    /// Invoice pending
    Pending,
}

/// The code that the service uses for `currency`.
pub open spec fn currency_code(currency: Currency) -> Seq<char> {
    match currency {
        Currency::USD => "USD"@,
        Currency::EUR => "EUR"@,
        Currency::BTC => "BTC"@,
    }
}

impl Currency {
    /// The code of the currency, as the service writes it.
    pub fn to_string(&self) -> (code: String)
        ensures
            code@ == currency_code(*self),
    {
        match self {
            Currency::USD => "USD".to_owned(),
            Currency::EUR => "EUR".to_owned(),
            Currency::BTC => "BTC".to_owned(),
        }
    }
}

/// The address that a client keeps for the service: the service's own where
/// it was given none, else the normal form of the one it was given; `None`
/// where that one is no absolute URL.
pub open spec fn base_url_of(api_url: Option<String>) -> Option<Seq<char>> {
    match api_url {
        Some(url) => endpoint::url_parsed(url@),
        None => Some(DEFAULT_API_URL@),
    }
}

/// `request` is the call that applies `method` to the resource at `url` on
/// behalf of `strike`, with a JSON document where `has_body` says one is at
/// hand and the verb takes one.
pub open spec fn is_call(
    request: ApiRequest,
    strike: Strike,
    method: Method,
    url: Seq<char>,
    has_body: bool,
) -> bool {
    &&& request.method == method
    &&& request.url@ == url
    &&& request.has_body == request::sends_body(method, has_body)
    &&& request::header_texts(request) == request::headers_of(method, has_body, strike.api_key@)
}

/// What asking `strike` for a call to the resource at `target` gives: the
/// call where there is such an address, else the complaint about the address.
pub open spec fn is_call_to(
    result: Result<ApiRequest, Error>,
    strike: Strike,
    method: Method,
    target: Option<Seq<char>>,
    has_body: bool,
) -> bool {
    match target {
        Some(url) => result is Ok && is_call(result->Ok_0, strike, method, url, has_body),
        None => result == Err::<ApiRequest, Error>(Error::InvalidUrl),
    }
}

impl Strike {
    /// Create Strike client
    /// # Arguments
    /// * `api_key` - Strike api token
    /// * `api_url` - Optional Url of the api
    ///
    /// An address, where one is given, must be an absolute URL, and is kept in
    /// its normal form. A new secret for webhook subscriptions is drawn for
    /// each client.
    pub fn new(api_key: &str, api_url: Option<String>) -> (result: Result<Strike, Error>)
        ensures
            match base_url_of(api_url) {
                Some(base_url) => {
                    &&& result matches Ok(strike)
                    &&& strike.base_url@ == base_url
                    &&& strike.api_key@ == api_key@
                    &&& secret::is_drawn_secret(strike.webhook_secret@)
                },
                None => result == Err::<Strike, Error>(Error::InvalidUrl),
            },
    {
        let address = match &api_url {
            Some(url) => endpoint::parse_url(url.as_str()),
            None => Some(DEFAULT_API_URL.to_owned()),
        };
        Strike::at(api_key, address)
    }

    /// Makes the client for the service at `address`, which is the normal
    /// form of an absolute URL, or `None` where the address asked for has none.
    /// A new secret for webhook subscriptions is drawn for each client.
    pub fn at(api_key: &str, address: Option<String>) -> (result: Result<Strike, Error>)
        ensures
            match address {
                Some(base_url) => {
                    &&& result matches Ok(strike)
                    &&& strike.base_url == base_url
                    &&& strike.api_key@ == api_key@
                    &&& secret::is_drawn_secret(strike.webhook_secret@)
                },
                None => result == Err::<Strike, Error>(Error::InvalidUrl),
            },
    {
        match address {
            Some(base_url) => Ok(
                Strike {
                    api_key: api_key.to_owned(),
                    base_url,
                    webhook_secret: secret::generate_secret(),
                },
            ),
            None => Err(Error::InvalidUrl),
        }
    }

    /// The address of the resource that `reference` names on the service.
    pub open spec fn resource(&self, reference: Seq<char>) -> Option<Seq<char>> {
        endpoint::url_joined(self.base_url@, reference)
    }

    /// Describes the call that applies `method` to the resource that
    /// `reference` names on the service.
    pub fn call(&self, method: Method, reference: &str, has_body: bool) -> (result: Result<
        ApiRequest,
        Error,
    >)
        ensures
            is_call_to(result, *self, method, self.resource(reference@), has_body),
    {
        self.call_at(method, endpoint::join_url(self.base_url.as_str(), reference), has_body)
    }

    /// Describes the call that applies `method` to the resource at `target`,
    /// where there is such an address.
    pub fn call_at(&self, method: Method, target: Option<String>, has_body: bool) -> (result:
        Result<ApiRequest, Error>)
        ensures
            is_call_to(
                result,
                *self,
                method,
                match target {
                    Some(url) => Some(url@),
                    None => None,
                },
                has_body,
            ),
    {
        match target {
            Some(url) => Ok(request::describe(method, url, has_body, self.api_key.as_str())),
            None => Err(Error::InvalidUrl),
        }
    }
}

} // verus!
