//! Requests of the Quant trading API client: where they go and how they
//! authenticate. The HTTP exchange itself belongs to the caller.

use vstd::prelude::*;

verus! {

/// The URL of a market quote: `{base_url}/quote/{symbol}`.
pub fn quote_url(base_url: &str, symbol: &str) -> (url: String)
    ensures
        url@ == base_url@ + "/quote/"@ + symbol@,
{
    let mut url = String::from_str(base_url);
    url.append("/quote/");
    url.append(symbol);
    url
}

/// The URL of the health endpoint: `{base_url}/health`.
pub fn health_url(base_url: &str) -> (url: String)
    ensures
        url@ == base_url@ + "/health"@,
{
    let mut url = String::from_str(base_url);
    url.append("/health");
    url
}

/// The `Authorization` header value: `Bearer {api_key}`.
pub fn bearer_token(api_key: &str) -> (value: String)
    ensures
        value@ == "Bearer "@ + api_key@,
{
    let mut value = String::from_str("Bearer ");
    value.append(api_key);
    value
}

} // verus!
