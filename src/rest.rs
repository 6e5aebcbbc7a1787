//! Answers of the exchange's REST endpoints, once decoded, and what is taken
//! from them.
use vstd::prelude::*;

verus! {

pub struct FundingRateEntry {
    pub symbol: String,
    pub funding_rate: String,
    pub funding_rate_timestamp: String,
}

pub struct FundingRateResult {
    pub category: String,
    pub list: Vec<FundingRateEntry>,
}

pub struct FundingRateResponse {
    pub ret_code: i32,
    pub ret_msg: String,
    pub result: FundingRateResult,
}

/// Why an answer yields no funding rate.
pub enum RestError {
    /// The endpoint reported an error.
    Api { code: i32, message: String },
    /// The endpoint returned no entry.
    NoEntry,
}

/// The latest funding rate of an answer: its first entry, unless the answer
/// reports an error or holds no entry.
pub fn latest_funding_rate(resp: FundingRateResponse) -> (r: Result<FundingRateEntry, RestError>)
    ensures
        resp.ret_code != 0 ==> (r matches Err(RestError::Api { code, message }) && code == resp.ret_code
            && message@ == resp.ret_msg@),
        resp.ret_code == 0 && resp.result.list@.len() == 0 ==> r matches Err(RestError::NoEntry),
        resp.ret_code == 0 && resp.result.list@.len() > 0 ==> (r matches Ok(e) && e == resp.result.list@[0]),
{
    if resp.ret_code != 0 {
        return Err(RestError::Api { code: resp.ret_code, message: resp.ret_msg });
    }
    let mut list = resp.result.list;
    if list.len() == 0 {
        return Err(RestError::NoEntry);
    }
    Ok(list.swap_remove(0))
}

} // verus!
